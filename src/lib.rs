//! A bridge that lets an EVM execution engine read and write account state
//! owned by a separate host process, one blocking call at a time.

pub mod wire;
pub mod error;
pub mod hexfmt;
pub mod commit;
pub mod adapter;
pub mod outcome;
pub mod config;
pub mod instance;

use vstd::prelude::*;

verus! {

/// Adds two integers; the sum must fit.
pub fn add(left: u64, right: u64) -> (r: u64)
    requires
        left + right <= u64::MAX,
    ensures
        r == left + right,
{
    left + right
}

} // verus!
