use revm_ffi::config::{ChainPreset, EngineConfig, Hardfork, RevmConfigFFI};
use revm_ffi::error::BridgeError;

#[test]
fn default_is_mainnet_at_latest() {
    let c = RevmConfigFFI::default();
    assert_eq!(c.chain_id, 1);
    assert_eq!(c.spec_id, 19);
    assert!(!c.disable_nonce_check && !c.disable_balance_check && !c.disable_eip3607);
    assert_eq!(c.max_code_size, 0);
}

#[test]
fn presets_pick_chain_and_hardfork() {
    assert_eq!(ChainPreset::EthereumMainnet.config().chain_id, 1);
    assert_eq!(ChainPreset::EthereumMainnet.config().spec_id, 19);
    assert_eq!(ChainPreset::BSCMainnet.config().chain_id, 56);
    assert_eq!(ChainPreset::BSCMainnet.config().spec_id, 18);
    assert_eq!(ChainPreset::BSCTestnet.config().chain_id, 97);
    assert_eq!(ChainPreset::BSCTestnet.config().spec_id, 18);
    assert_eq!(ChainPreset::Custom.config(), RevmConfigFFI::default());
}

#[test]
fn hardfork_table() {
    assert_eq!(Hardfork::from_ordinal(0), Some(Hardfork::Frontier));
    assert_eq!(Hardfork::from_ordinal(11), Some(Hardfork::Berlin));
    assert_eq!(Hardfork::from_ordinal(12), Some(Hardfork::London));
    assert_eq!(Hardfork::from_ordinal(17), Some(Hardfork::Cancun));
    assert_eq!(Hardfork::from_ordinal(18), Some(Hardfork::Cancun));
    assert_eq!(Hardfork::from_ordinal(19), Some(Hardfork::Prague));
    assert_eq!(Hardfork::from_ordinal(20), Some(Hardfork::Osaka));
    assert_eq!(Hardfork::from_ordinal(21), None);
    assert_eq!(Hardfork::from_ordinal(255), None);
}

#[test]
fn resolve_maps_fields_and_rejects_unknown_ordinal() {
    let cfg = RevmConfigFFI { spec_id: 11, max_code_size: 0, disable_eip3607: true, ..RevmConfigFFI::default() };
    let e = EngineConfig::resolve(&cfg).unwrap();
    assert_eq!(e.hardfork, Hardfork::Berlin);
    assert_eq!(e.chain_id, 1);
    assert!(e.disable_eip3607);
    assert_eq!(e.max_code_size, None);
    let sized = RevmConfigFFI { max_code_size: 49152, ..RevmConfigFFI::default() };
    assert_eq!(EngineConfig::resolve(&sized).unwrap().max_code_size, Some(49152));
    let bad = RevmConfigFFI { spec_id: 42, ..RevmConfigFFI::default() };
    assert_eq!(EngineConfig::resolve(&bad), Err(BridgeError::UnsupportedHardfork(42)));
}
