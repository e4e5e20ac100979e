//! Errors of decoding a fee and its parts.
use vstd::prelude::*;

verus! {

/// Why a value could not be decoded.
#[derive(Clone, Copy, Debug, PartialEq, Eq, Structural)]
pub enum Error {
    /// An account identifier that is not of the address syntax.
    AccountId,
    /// A coin denomination that is not of the denomination syntax.
    Denom,
    /// A coin amount that is not a decimal number that fits in 128 bits.
    Amount,
}

} // verus!
