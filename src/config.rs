//! Instance configuration: chain id, protocol upgrade stage and the checks
//! that may be switched off.

use vstd::prelude::*;
use crate::error::BridgeError;

verus! {

/// The newest supported hardfork ordinal.
pub const LATEST_HARDFORK: u8 = 19;

/// The ordinal that the alternate-network presets are pinned to.
pub const ALTERNATE_HARDFORK: u8 = 18;

/// Configuration as the host passes it in.
#[derive(Clone, Copy, Debug, PartialEq, Eq)]
pub struct RevmConfigFFI {
    /// Chain id: 1 for the main network, 56 and 97 for the alternates.
    pub chain_id: u64,
    /// Hardfork ordinal: 0 for Frontier up to 20 for Osaka.
    pub spec_id: u8,
    /// Skip the nonce check.
    pub disable_nonce_check: bool,
    /// Skip the balance check.
    pub disable_balance_check: bool,
    /// Skip the block gas limit check.
    pub disable_block_gas_limit: bool,
    /// Skip the base fee check.
    pub disable_base_fee: bool,
    /// Skip the check that a sender has no code.
    pub disable_eip3607: bool,
    /// Largest contract code size; 0 keeps the engine's default.
    pub max_code_size: u32,
}

/// The default configuration: chain 1 at the latest hardfork, every check on.
pub open spec fn default_config() -> RevmConfigFFI {
    RevmConfigFFI {
        chain_id: 1,
        spec_id: LATEST_HARDFORK,
        disable_nonce_check: false,
        disable_balance_check: false,
        disable_block_gas_limit: false,
        disable_base_fee: false,
        disable_eip3607: false,
        max_code_size: 0,
    }
}

impl Default for RevmConfigFFI {
    fn default() -> (r: Self)
        ensures
            r == default_config(),
    {
        RevmConfigFFI {
            chain_id: 1,
            spec_id: LATEST_HARDFORK,
            disable_nonce_check: false,
            disable_balance_check: false,
            disable_block_gas_limit: false,
            disable_base_fee: false,
            disable_eip3607: false,
            max_code_size: 0,
        }
    }
}

/// Predefined chain configurations.
#[derive(Clone, Copy, Debug, PartialEq, Eq)]
pub enum ChainPreset {
    /// Main network, chain id 1.
    EthereumMainnet,
    /// Alternate main network, chain id 56.
    BSCMainnet,
    /// Alternate test network, chain id 97.
    BSCTestnet,
    /// The default configuration, for the caller to override field by field.
    Custom,
}

/// The configuration of a preset.
pub open spec fn preset_config(p: ChainPreset) -> RevmConfigFFI {
    match p {
        ChainPreset::EthereumMainnet => RevmConfigFFI { chain_id: 1, spec_id: LATEST_HARDFORK, ..default_config() },
        ChainPreset::BSCMainnet => RevmConfigFFI { chain_id: 56, spec_id: ALTERNATE_HARDFORK, ..default_config() },
        ChainPreset::BSCTestnet => RevmConfigFFI { chain_id: 97, spec_id: ALTERNATE_HARDFORK, ..default_config() },
        ChainPreset::Custom => default_config(),
    }
}

impl ChainPreset {
    /// The configuration this preset stands for.
    pub fn config(self) -> (r: RevmConfigFFI)
        ensures
            r == preset_config(self),
    {
        let base = RevmConfigFFI::default();
        match self {
            ChainPreset::EthereumMainnet => RevmConfigFFI { chain_id: 1, spec_id: LATEST_HARDFORK, ..base },
            ChainPreset::BSCMainnet => RevmConfigFFI { chain_id: 56, spec_id: ALTERNATE_HARDFORK, ..base },
            ChainPreset::BSCTestnet => RevmConfigFFI { chain_id: 97, spec_id: ALTERNATE_HARDFORK, ..base },
            ChainPreset::Custom => base,
        }
    }
}

/// Protocol upgrade stages, oldest first.
#[derive(Clone, Copy, Debug, PartialEq, Eq)]
pub enum Hardfork {
    Frontier,
    FrontierThawing,
    Homestead,
    DaoFork,
    Tangerine,
    SpuriousDragon,
    Byzantium,
    Constantinople,
    Petersburg,
    Istanbul,
    MuirGlacier,
    Berlin,
    London,
    ArrowGlacier,
    GrayGlacier,
    Merge,
    Shanghai,
    Cancun,
    Prague,
    Osaka,
}

/// The table from ordinal to stage; ordinals 17 and 18 both select Cancun.
pub open spec fn hardfork_of(ordinal: u8) -> Option<Hardfork> {
    if ordinal == 0 { Some(Hardfork::Frontier) }
    else if ordinal == 1 { Some(Hardfork::FrontierThawing) }
    else if ordinal == 2 { Some(Hardfork::Homestead) }
    else if ordinal == 3 { Some(Hardfork::DaoFork) }
    else if ordinal == 4 { Some(Hardfork::Tangerine) }
    else if ordinal == 5 { Some(Hardfork::SpuriousDragon) }
    else if ordinal == 6 { Some(Hardfork::Byzantium) }
    else if ordinal == 7 { Some(Hardfork::Constantinople) }
    else if ordinal == 8 { Some(Hardfork::Petersburg) }
    else if ordinal == 9 { Some(Hardfork::Istanbul) }
    else if ordinal == 10 { Some(Hardfork::MuirGlacier) }
    else if ordinal == 11 { Some(Hardfork::Berlin) }
    else if ordinal == 12 { Some(Hardfork::London) }
    else if ordinal == 13 { Some(Hardfork::ArrowGlacier) }
    else if ordinal == 14 { Some(Hardfork::GrayGlacier) }
    else if ordinal == 15 { Some(Hardfork::Merge) }
    else if ordinal == 16 { Some(Hardfork::Shanghai) }
    else if ordinal == 17 || ordinal == 18 { Some(Hardfork::Cancun) }
    else if ordinal == 19 { Some(Hardfork::Prague) }
    else if ordinal == 20 { Some(Hardfork::Osaka) }
    else { None }
}

impl Hardfork {
    /// The stage an ordinal selects; an ordinal outside the table selects none.
    pub fn from_ordinal(ordinal: u8) -> (r: Option<Hardfork>)
        ensures
            r == hardfork_of(ordinal),
    {
        match ordinal {
            0 => Some(Hardfork::Frontier),
            1 => Some(Hardfork::FrontierThawing),
            2 => Some(Hardfork::Homestead),
            3 => Some(Hardfork::DaoFork),
            4 => Some(Hardfork::Tangerine),
            5 => Some(Hardfork::SpuriousDragon),
            6 => Some(Hardfork::Byzantium),
            7 => Some(Hardfork::Constantinople),
            8 => Some(Hardfork::Petersburg),
            9 => Some(Hardfork::Istanbul),
            10 => Some(Hardfork::MuirGlacier),
            11 => Some(Hardfork::Berlin),
            12 => Some(Hardfork::London),
            13 => Some(Hardfork::ArrowGlacier),
            14 => Some(Hardfork::GrayGlacier),
            15 => Some(Hardfork::Merge),
            16 => Some(Hardfork::Shanghai),
            17 | 18 => Some(Hardfork::Cancun),
            19 => Some(Hardfork::Prague),
            20 => Some(Hardfork::Osaka),
            _ => None,
        }
    }
}

/// A configuration resolved for the engine.
#[derive(Clone, Copy, Debug, PartialEq, Eq)]
pub struct EngineConfig {
    pub chain_id: u64,
    pub hardfork: Hardfork,
    pub disable_nonce_check: bool,
    pub disable_balance_check: bool,
    pub disable_block_gas_limit: bool,
    pub disable_base_fee: bool,
    pub disable_eip3607: bool,
    /// The code size limit, when the host asked for one.
    pub max_code_size: Option<u32>,
}

/// What resolving a configuration yields: the engine configuration, or the
/// unsupported ordinal.
pub open spec fn resolved(cfg: RevmConfigFFI) -> Result<EngineConfig, BridgeError> {
    match hardfork_of(cfg.spec_id) {
        Some(h) => Ok(
            EngineConfig {
                chain_id: cfg.chain_id,
                hardfork: h,
                disable_nonce_check: cfg.disable_nonce_check,
                disable_balance_check: cfg.disable_balance_check,
                disable_block_gas_limit: cfg.disable_block_gas_limit,
                disable_base_fee: cfg.disable_base_fee,
                disable_eip3607: cfg.disable_eip3607,
                max_code_size: if cfg.max_code_size > 0 { Some(cfg.max_code_size) } else { None },
            },
        ),
        None => Err(BridgeError::UnsupportedHardfork(cfg.spec_id)),
    }
}

impl EngineConfig {
    /// Resolves a configuration; an unknown hardfork ordinal is an error.
    pub fn resolve(cfg: &RevmConfigFFI) -> (r: Result<EngineConfig, BridgeError>)
        ensures
            r == resolved(*cfg),
    {
        let hardfork = match Hardfork::from_ordinal(cfg.spec_id) {
            Some(h) => h,
            None => {
                return Err(BridgeError::UnsupportedHardfork(cfg.spec_id));
            },
        };
        Ok(
            EngineConfig {
                chain_id: cfg.chain_id,
                hardfork,
                disable_nonce_check: cfg.disable_nonce_check,
                disable_balance_check: cfg.disable_balance_check,
                disable_block_gas_limit: cfg.disable_block_gas_limit,
                disable_base_fee: cfg.disable_base_fee,
                disable_eip3607: cfg.disable_eip3607,
                max_code_size: if cfg.max_code_size > 0 {
                    Some(cfg.max_code_size)
                } else {
                    None
                },
            },
        )
    }
}

} // verus!
