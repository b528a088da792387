use revm_ffi::error::BridgeError;
use revm_ffi::hexfmt::{address_to_hex, bytes_to_hex, hash_to_hex, hex_to_address, hex_to_u256, u256_to_hex};
use revm_ffi::wire::{FFIAddress, FFIHash, FFIU256};

fn word(low: &[u8]) -> FFIU256 {
    let mut bytes = [0u8; 32];
    bytes[32 - low.len()..].copy_from_slice(low);
    FFIU256 { bytes }
}

#[test]
fn address_round_trip_with_prefix() {
    let text = "0x71562b71999873db5b286df957af199ec94617f7";
    let a = hex_to_address(text).unwrap();
    assert_eq!(a.bytes[0], 0x71);
    assert_eq!(a.bytes[19], 0xf7);
    assert_eq!(address_to_hex(a), text);
}

#[test]
fn address_round_trip_without_prefix_is_canonical() {
    let a = hex_to_address("71562b71999873DB5b286dF957af199Ec94617F7").unwrap();
    assert_eq!(address_to_hex(a), "0x71562b71999873db5b286df957af199ec94617f7");
    let b = hex_to_address("0x71562b71999873DB5b286dF957af199Ec94617F7").unwrap();
    assert_eq!(a, b);
}

#[test]
fn address_of_wrong_length_is_rejected() {
    assert_eq!(hex_to_address("0x1234"), Err(BridgeError::InvalidAddressLength));
    assert_eq!(hex_to_address(""), Err(BridgeError::InvalidAddressLength));
    assert_eq!(
        hex_to_address("0x71562b71999873db5b286df957af199ec94617f7aa"),
        Err(BridgeError::InvalidAddressLength)
    );
}

#[test]
fn address_with_bad_digit_is_rejected() {
    assert_eq!(
        hex_to_address("0x71562b71999873db5b286df957af199ec94617fg"),
        Err(BridgeError::InvalidHexEncoding)
    );
    assert_eq!(
        hex_to_address("0X71562b71999873db5b286df957af199ec94617f7"),
        Err(BridgeError::InvalidAddressLength)
    );
}

#[test]
fn u256_parses_with_and_without_prefix() {
    let v = hex_to_u256("0x1000000000000000").unwrap();
    assert_eq!(v, word(&[0x10, 0, 0, 0, 0, 0, 0, 0]));
    assert_eq!(hex_to_u256("1000000000000000").unwrap(), v);
    assert_eq!(hex_to_u256("0x1").unwrap(), word(&[1]));
    assert_eq!(hex_to_u256("0xFf").unwrap(), word(&[0xff]));
}

#[test]
fn u256_ignores_underscores_and_accepts_empty() {
    assert_eq!(hex_to_u256("0x1_00").unwrap(), word(&[1, 0]));
    assert_eq!(hex_to_u256("0x").unwrap(), FFIU256::zero());
}

#[test]
fn u256_rejects_bad_digits_and_overflow() {
    assert_eq!(hex_to_u256("0xzz"), Err(BridgeError::InvalidIntegerEncoding));
    let max = "f".repeat(64);
    assert_eq!(hex_to_u256(&max).unwrap(), FFIU256 { bytes: [0xff; 32] });
    let over = format!("1{}", "0".repeat(64));
    assert_eq!(hex_to_u256(&over), Err(BridgeError::InvalidIntegerEncoding));
}

#[test]
fn u256_formats_shortest_lowercase() {
    assert_eq!(u256_to_hex(FFIU256::zero()), "0x0");
    assert_eq!(u256_to_hex(word(&[0x10, 0, 0, 0, 0, 0, 0, 0])), "0x1000000000000000");
    assert_eq!(u256_to_hex(word(&[0xab, 0xcd])), "0xabcd");
    assert_eq!(u256_to_hex(FFIU256 { bytes: [0xff; 32] }), format!("0x{}", "f".repeat(64)));
}

#[test]
fn bytes_and_hashes_format_as_lowercase_pairs() {
    assert_eq!(bytes_to_hex(&[]), "0x");
    assert_eq!(bytes_to_hex(&[0xde, 0xad, 0x0b]), "0xdead0b");
    let mut h = [0u8; 32];
    h[0] = 0xab;
    h[31] = 0x01;
    let text = hash_to_hex(FFIHash { bytes: h });
    assert_eq!(text.len(), 66);
    assert!(text.starts_with("0xab00"));
    assert!(text.ends_with("0001"));
    assert_eq!(address_to_hex(FFIAddress::zero()), format!("0x{}", "0".repeat(40)));
}

#[test]
fn formatted_address_parses_back() {
    for a in [FFIAddress::zero(), FFIAddress { bytes: [0xff; 20] }, hex_to_address("0x71562b71999873DB5b286dF957af199Ec94617F7").unwrap()] {
        let text = address_to_hex(a);
        assert_eq!(text.len(), 42);
        assert_eq!(hex_to_address(&text), Ok(a));
    }
}
