//! Units of account.
use vstd::prelude::*;

verus! {

/// One whole, in basis points: every share is a number of ten-thousandths.
pub const BPS: u16 = 10_000;

/// Bytes that the host puts in front of every stored record.
pub const ANCHOR_DISCRIMINATOR_SIZE: usize = 8;

} // verus!
