//! Fixed-layout values shared verbatim by both sides of the host boundary.

use vstd::prelude::*;

verus! {

/// 160-bit account address (20 raw bytes).
#[derive(Clone, Copy, Debug, PartialEq, Eq, Hash)]
pub struct FFIAddress {
    pub bytes: [u8; 20],
}

/// 256-bit hash: code hashes, block hashes.
#[derive(Clone, Copy, Debug, PartialEq, Eq, Hash)]
pub struct FFIHash {
    pub bytes: [u8; 32],
}

/// 256-bit unsigned integer, big-endian.
#[derive(Clone, Copy, Debug, PartialEq, Eq, Hash)]
pub struct FFIU256 {
    pub bytes: [u8; 32],
}

/// The part of an account that crosses the boundary: its code is fetched
/// separately, by hash.
#[derive(Clone, Copy, Debug, PartialEq, Eq, Hash)]
pub struct FFIAccountInfo {
    pub balance: FFIU256,
    pub nonce: u64,
    pub code_hash: FFIHash,
}

/// The number that a big-endian byte sequence denotes.
pub open spec fn be_value(b: Seq<u8>) -> nat
    decreases b.len(),
{
    if b.len() == 0 {
        0
    } else {
        be_value(b.drop_last()) * 256 + b.last() as nat
    }
}

/// True when every byte is zero.
pub open spec fn all_zero(b: Seq<u8>) -> bool {
    forall|i: int| 0 <= i < b.len() ==> b[i] == 0
}

impl FFIU256 {
    /// The number this word denotes.
    pub open spec fn value(self) -> nat {
        be_value(self.bytes@)
    }

    /// The word whose 32 bytes are all zero.
    pub fn zero() -> (r: FFIU256)
        ensures
            all_zero(r.bytes@),
    {
        FFIU256 { bytes: [0u8; 32] }
    }
}

impl FFIHash {
    /// The hash whose 32 bytes are all zero.
    pub fn zero() -> (r: FFIHash)
        ensures
            all_zero(r.bytes@),
    {
        FFIHash { bytes: [0u8; 32] }
    }
}

impl FFIAddress {
    /// The address whose 20 bytes are all zero.
    pub fn zero() -> (r: FFIAddress)
        ensures
            all_zero(r.bytes@),
    {
        FFIAddress { bytes: [0u8; 20] }
    }
}

/// The big-endian value of bytes that are all zero is zero.
pub proof fn lemma_zero_value(b: Seq<u8>)
    requires
        all_zero(b),
    ensures
        be_value(b) == 0,
    decreases b.len(),
{
    if b.len() > 0 {
        lemma_zero_value(b.drop_last());
    }
}

/// The bytes of the hash of empty code.
pub open spec fn empty_code_hash_bytes() -> Seq<u8> {
    seq![
        0xc5u8, 0xd2, 0x46, 0x01, 0x86, 0xf7, 0x23, 0x3c, 0x92, 0x7e, 0x7d, 0xb2, 0xdc, 0xc7, 0x03, 0xc0,
        0xe5, 0x00, 0xb6, 0x53, 0xca, 0x82, 0x27, 0x3b, 0x7b, 0xfa, 0xd8, 0x04, 0x5d, 0x85, 0xa4, 0x70,
    ]
}

impl FFIHash {
    /// The hash of empty code.
    pub fn empty_code() -> (r: FFIHash)
        ensures
            r.bytes@ == empty_code_hash_bytes(),
    {
        let r = FFIHash {
            bytes: [
                0xc5u8, 0xd2, 0x46, 0x01, 0x86, 0xf7, 0x23, 0x3c, 0x92, 0x7e, 0x7d, 0xb2, 0xdc, 0xc7, 0x03,
                0xc0, 0xe5, 0x00, 0xb6, 0x53, 0xca, 0x82, 0x27, 0x3b, 0x7b, 0xfa, 0xd8, 0x04, 0x5d, 0x85,
                0xa4, 0x70,
            ],
        };
        assert(r.bytes@ =~= empty_code_hash_bytes());
        r
    }
}

} // verus!
