//! Hexadecimal text at the boundary: addresses, 256-bit numbers and byte
//! strings, parsed from and formatted to text.

use vstd::prelude::*;
use vstd::string::StringSliceAdditionalSpecFns;
use vstd::utf8::{encode_utf8, is_ascii_chars_encode_utf8};
use crate::error::BridgeError;
use crate::wire::{FFIAddress, FFIHash, FFIU256, be_value};

verus! {

/// An ASCII hexadecimal digit of either case.
pub open spec fn is_hex_digit(c: u8) -> bool {
    (48 <= c <= 57) || (97 <= c <= 102) || (65 <= c <= 70)
}

/// The value of a hexadecimal digit.
pub open spec fn hex_digit_value(c: u8) -> nat {
    if 48 <= c <= 57 {
        (c - 48) as nat
    } else if 97 <= c <= 102 {
        (c - 87) as nat
    } else {
        (c - 55) as nat
    }
}

/// The lowercase hexadecimal digits, by value.
pub open spec fn hex_alphabet() -> Seq<char> {
    seq!['0', '1', '2', '3', '4', '5', '6', '7', '8', '9', 'a', 'b', 'c', 'd', 'e', 'f']
}

/// Text that decodes to bytes: an even number of hexadecimal digits.
pub open spec fn hex_decodable(s: Seq<u8>) -> bool {
    s.len() % 2 == 0 && forall|i: int| 0 <= i < s.len() ==> is_hex_digit(#[trigger] s[i])
}

/// The bytes that pairs of hexadecimal digits denote, high digit first.
pub open spec fn hex_decoded(s: Seq<u8>) -> Seq<u8> {
    Seq::new(
        s.len() / 2,
        |i: int| (hex_digit_value(s[2 * i]) * 16 + hex_digit_value(s[2 * i + 1])) as u8,
    )
}

/// Two lowercase hexadecimal digits per byte, high digit first.
pub open spec fn hex_lower(b: Seq<u8>) -> Seq<char> {
    Seq::new(
        2 * b.len(),
        |i: int|
            if i % 2 == 0 {
                hex_alphabet()[(b[i / 2] / 16) as int]
            } else {
                hex_alphabet()[(b[i / 2] % 16) as int]
            },
    )
}

/// Each hexadecimal digit written in lowercase.
pub open spec fn lowercase_digits(s: Seq<u8>) -> Seq<char> {
    Seq::new(s.len(), |i: int| hex_alphabet()[hex_digit_value(s[i]) as int])
}

/// The two characters that open a hexadecimal number.
pub open spec fn hex_prefix() -> Seq<char> {
    seq!['0', 'x']
}

/// True when the text opens with the bytes of "0x".
pub open spec fn has_hex_prefix(s: Seq<u8>) -> bool {
    s.len() >= 2 && s[0] == 48 && s[1] == 120
}

/// The text without one leading "0x", when it has one.
pub open spec fn strip_hex_prefix(s: Seq<u8>) -> Seq<u8> {
    if has_hex_prefix(s) {
        s.subrange(2, s.len() as int)
    } else {
        s
    }
}

/// What parsing an address from text yields: its 20 bytes, or why not.
pub open spec fn parse_address_spec(s: Seq<u8>) -> Result<Seq<u8>, BridgeError> {
    let d = strip_hex_prefix(s);
    if d.len() != 40 {
        Err(BridgeError::InvalidAddressLength)
    } else if !hex_decodable(d) {
        Err(BridgeError::InvalidHexEncoding)
    } else {
        Ok(hex_decoded(d))
    }
}

/// The canonical text of an address: "0x" and 40 lowercase digits.
pub open spec fn address_text(a: Seq<u8>) -> Seq<char> {
    hex_prefix() + hex_lower(a)
}

/// Text that a hexadecimal integer may be written in: digits of either case,
/// with underscores ignored.
pub open spec fn radix16_text(s: Seq<u8>) -> bool {
    forall|i: int| 0 <= i < s.len() ==> is_hex_digit(#[trigger] s[i]) || s[i] == 95
}

/// Hexadecimal text whose value fits in 256 bits.
pub open spec fn parses_in_range(s: Seq<u8>) -> bool {
    radix16_text(s) && radix16_value(s) < word_modulus()
}

/// The number that hexadecimal text denotes, underscores ignored.
pub open spec fn radix16_value(s: Seq<u8>) -> nat
    decreases s.len(),
{
    if s.len() == 0 {
        0
    } else if s.last() == 95 {
        radix16_value(s.drop_last())
    } else {
        radix16_value(s.drop_last()) * 16 + hex_digit_value(s.last())
    }
}

/// One more than the largest 256-bit number.
pub open spec fn word_modulus() -> nat {
    vstd::arithmetic::power2::pow2(256)
}

/// What parsing a 256-bit number from text yields: its value, or why not.
pub open spec fn parse_u256_spec(s: Seq<u8>) -> Result<nat, BridgeError> {
    let d = strip_hex_prefix(s);
    if parses_in_range(d) {
        Ok(radix16_value(d))
    } else {
        Err(BridgeError::InvalidIntegerEncoding)
    }
}

/// The shortest lowercase hexadecimal digits of a number ("0" for zero).
pub open spec fn minimal_hex(n: nat) -> Seq<char>
    decreases n,
{
    if n < 16 {
        seq![hex_alphabet()[n as int]]
    } else {
        minimal_hex(n / 16).push(hex_alphabet()[(n % 16) as int])
    }
}

/// The error of hex::decode, carried opaquely.
#[verifier::external_type_specification]
#[verifier::external_body]
pub struct ExFromHexError(hex::FromHexError);

/// Relies on str::strip_prefix: the rest of the text after a leading "0x".
#[verifier::external_body]
fn strip_0x<'a>(s: &'a str) -> (r: Option<&'a str>)
    ensures
        match r {
            Some(t) => has_hex_prefix(s.spec_bytes()) && t.spec_bytes() == s.spec_bytes().subrange(
                2,
                s.spec_bytes().len() as int,
            ),
            None => !has_hex_prefix(s.spec_bytes()),
        },
{
    s.strip_prefix("0x")
}

/// Relies on hex::decode: pairs of digits of either case, high digit first;
/// an error on odd length or on any other character.
#[verifier::external_body]
fn decode_hex(digits: &[u8]) -> (r: Result<Vec<u8>, hex::FromHexError>)
    ensures
        r is Ok <==> hex_decodable(digits@),
        r is Ok ==> r->Ok_0@ == hex_decoded(digits@),
{
    hex::decode(digits)
}

/// Relies on hex::encode: two lowercase digits per byte, high digit first.
#[verifier::external_body]
fn encode_hex(b: &[u8]) -> (r: String)
    ensures
        r@ == hex_lower(b@),
{
    hex::encode(b)
}

/// Relies on U256::from_str_radix in base 16: digits of either case,
/// underscores skipped, an error on any other character or on a value of
/// 2^256 or more; the value is handed back as 32 big-endian bytes.
#[verifier::external_body]
fn parse_radix16(digits: &str) -> (r: Option<[u8; 32]>)
    ensures
        r is Some <==> parses_in_range(digits.spec_bytes()),
        r is Some ==> be_value(r->Some_0@) == radix16_value(digits.spec_bytes()),
{
    revm::primitives::U256::from_str_radix(digits, 16).ok().map(|v| v.to_be_bytes::<32>())
}

/// Relies on the LowerHex format of U256: the shortest lowercase digits,
/// "0" for zero, no prefix.
#[verifier::external_body]
fn format_word(bytes: [u8; 32]) -> (r: String)
    ensures
        r@ == minimal_hex(be_value(bytes@)),
{
    format!("{:x}", revm::primitives::U256::from_be_bytes(bytes))
}

/// Relies on the LowerHex format of Address: all 40 lowercase digits, no
/// prefix.
#[verifier::external_body]
fn format_address(bytes: [u8; 20]) -> (r: String)
    ensures
        r@ == hex_lower(bytes@),
{
    format!("{:x}", revm::primitives::Address::from(bytes))
}

/// Relies on the LowerHex format of B256: all 64 lowercase digits, no
/// prefix.
#[verifier::external_body]
fn format_hash(bytes: [u8; 32]) -> (r: String)
    ensures
        r@ == hex_lower(bytes@),
{
    format!("{:x}", revm::primitives::B256::from(bytes))
}

/// "0x" followed by the given digits.
fn with_prefix(digits: String) -> (r: String)
    ensures
        r@ == hex_prefix() + digits@,
{
    let mut out = String::from_str("0x");
    out.append(digits.as_str());
    proof {
        reveal_strlit("0x");
    }
    assert(out@ =~= hex_prefix() + digits@);
    out
}

/// Parses an address from 40 hexadecimal digits, with or without "0x".
pub fn hex_to_address(hex_str: &str) -> (r: Result<FFIAddress, BridgeError>)
    ensures
        match r {
            Ok(a) => parse_address_spec(hex_str.spec_bytes()) == Ok::<Seq<u8>, BridgeError>(
                a.bytes@,
            ),
            Err(e) => parse_address_spec(hex_str.spec_bytes()) == Err::<Seq<u8>, BridgeError>(e),
        },
{
    let digits = match strip_0x(hex_str) {
        Some(t) => t,
        None => hex_str,
    };
    assert(digits.spec_bytes() == strip_hex_prefix(hex_str.spec_bytes()));
    let raw = digits.as_bytes();
    if raw.len() != 40 {
        return Err(BridgeError::InvalidAddressLength);
    }
    match decode_hex(raw) {
        Err(_) => Err(BridgeError::InvalidHexEncoding),
        Ok(bytes) => {
            assert(bytes@.len() == 20);
            let mut out = [0u8; 20];
            let mut i: usize = 0;
            while i < 20
                invariant
                    bytes@.len() == 20,
                    0 <= i <= 20,
                    forall|j: int| 0 <= j < i ==> out@[j] == bytes@[j],
                decreases 20 - i,
            {
                out[i] = bytes[i];
                i = i + 1;
            }
            assert(out@ =~= bytes@);
            Ok(FFIAddress { bytes: out })
        },
    }
}

/// Parses a 256-bit number from hexadecimal text, with or without "0x".
pub fn hex_to_u256(hex_str: &str) -> (r: Result<FFIU256, BridgeError>)
    ensures
        match r {
            Ok(v) => parse_u256_spec(hex_str.spec_bytes()) == Ok::<nat, BridgeError>(v.value()),
            Err(e) => parse_u256_spec(hex_str.spec_bytes()) == Err::<nat, BridgeError>(e),
        },
{
    let digits = match strip_0x(hex_str) {
        Some(t) => t,
        None => hex_str,
    };
    match parse_radix16(digits) {
        Some(bytes) => Ok(FFIU256 { bytes }),
        None => Err(BridgeError::InvalidIntegerEncoding),
    }
}

/// Formats a 256-bit number as "0x" and its shortest lowercase digits.
pub fn u256_to_hex(value: FFIU256) -> (r: String)
    ensures
        r@ == hex_prefix() + minimal_hex(value.value()),
{
    with_prefix(format_word(value.bytes))
}

/// Formats an address as "0x" and its 40 lowercase digits.
pub fn address_to_hex(addr: FFIAddress) -> (r: String)
    ensures
        r@ == address_text(addr.bytes@),
{
    with_prefix(format_address(addr.bytes))
}

/// Formats a hash as "0x" and its 64 lowercase digits.
pub fn hash_to_hex(hash: FFIHash) -> (r: String)
    ensures
        r@ == hex_prefix() + hex_lower(hash.bytes@),
{
    with_prefix(format_hash(hash.bytes))
}

/// Formats bytes as "0x" and two lowercase digits per byte.
pub fn bytes_to_hex(bytes: &[u8]) -> (r: String)
    ensures
        r@ == hex_prefix() + hex_lower(bytes@),
{
    with_prefix(encode_hex(bytes))
}

proof fn lemma_digit_pair(hi: nat, lo: nat)
    requires
        hi < 16,
        lo < 16,
    ensures
        ((hi * 16 + lo) as u8) / 16 == hi,
        ((hi * 16 + lo) as u8) % 16 == lo,
{
    assert(hi * 16 + lo < 256) by (nonlinear_arith)
        requires
            hi < 16,
            lo < 16,
    ;
    assert((hi * 16 + lo) / 16 == hi && (hi * 16 + lo) % 16 == lo) by (nonlinear_arith)
        requires
            lo < 16,
    ;
}

/// Parsing an address written as 40 hexadecimal digits, with or without a
/// leading "0x", succeeds, and formatting the result gives "0x" followed by
/// the same digits in lowercase.
pub proof fn lemma_address_round_trip(s: Seq<u8>)
    requires
        strip_hex_prefix(s).len() == 40,
        forall|i: int| 0 <= i < 40 ==> is_hex_digit(#[trigger] strip_hex_prefix(s)[i]),
    ensures
        parse_address_spec(s) is Ok,
        address_text(parse_address_spec(s)->Ok_0) == hex_prefix() + lowercase_digits(
            strip_hex_prefix(s),
        ),
{
    let d = strip_hex_prefix(s);
    assert(hex_decodable(d));
    let b = hex_decoded(d);
    assert forall|i: int| 0 <= i < 40 implies #[trigger] hex_lower(b)[i] == lowercase_digits(d)[i] by {
        let k = i / 2;
        assert(is_hex_digit(d[2 * k]) && is_hex_digit(d[2 * k + 1]));
        lemma_digit_pair(hex_digit_value(d[2 * k]), hex_digit_value(d[2 * k + 1]));
    }
    assert(hex_lower(b) =~= lowercase_digits(d));
}

proof fn lemma_alphabet_digit(n: int)
    requires
        0 <= n < 16,
    ensures
        '\0' <= hex_alphabet()[n] <= '\u{7f}',
        is_hex_digit(hex_alphabet()[n] as u8),
        hex_digit_value(hex_alphabet()[n] as u8) == n,
{
    reveal_with_fuel(hex_alphabet, 1);
    assert(hex_alphabet()[n] as u8 == if n < 10 { 48 + n } else { 87 + n });
}

/// Formatting an address and parsing the text back gives the same address:
/// the bytes of "0x" and 40 lowercase digits decode to the 20 bytes again.
/// (The bytes of any text are the UTF-8 encoding of its characters.)
pub proof fn lemma_address_text_parses_back(a: Seq<u8>)
    requires
        a.len() == 20,
    ensures
        parse_address_spec(encode_utf8(address_text(a))) == Ok::<Seq<u8>, BridgeError>(a),
{
    let t = address_text(a);
    assert(t.len() == 42);
    assert forall|i: int| 0 <= i < 42 implies '\0' <= #[trigger] t[i] <= '\u{7f}' by {
        if i >= 2 {
            let k = (i - 2) / 2;
            if (i - 2) % 2 == 0 {
                lemma_alphabet_digit((a[k] / 16) as int);
            } else {
                lemma_alphabet_digit((a[k] % 16) as int);
            }
        }
    }
    is_ascii_chars_encode_utf8(t);
    let b = encode_utf8(t);
    assert(b[0] == t[0] as u8 && b[1] == t[1] as u8);
    assert(has_hex_prefix(b));
    let d = strip_hex_prefix(b);
    assert(d.len() == 40);
    assert forall|j: int| 0 <= j < 40 implies #[trigger] d[j] == hex_alphabet()[(if j % 2 == 0 {
        a[j / 2] / 16
    } else {
        a[j / 2] % 16
    }) as int] as u8 by {
        assert(d[j] == b[j + 2]);
        assert(b[j + 2] == t[j + 2] as u8);
    }
    assert forall|j: int| 0 <= j < 40 implies is_hex_digit(#[trigger] d[j]) by {
        if j % 2 == 0 {
            lemma_alphabet_digit((a[j / 2] / 16) as int);
        } else {
            lemma_alphabet_digit((a[j / 2] % 16) as int);
        }
    }
    assert(hex_decodable(d));
    assert forall|k: int| 0 <= k < 20 implies #[trigger] hex_decoded(d)[k] == a[k] by {
        let hi = (a[k] / 16) as int;
        let lo = (a[k] % 16) as int;
        assert(d[2 * k] == hex_alphabet()[hi] as u8);
        assert(d[2 * k + 1] == hex_alphabet()[lo] as u8);
        lemma_alphabet_digit(hi);
        lemma_alphabet_digit(lo);
        assert(hi * 16 + lo == a[k]);
    }
    assert(hex_decoded(d) =~= a);
}

} // verus!
