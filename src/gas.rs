//! Gas: the unit in which the computation of a transaction is charged.
use vstd::prelude::*;

verus! {

/// An amount of gas.
#[derive(Clone, Copy, Debug, PartialEq, Eq, Structural, PartialOrd, Ord)]
pub struct Gas(pub u64);

impl Gas {
    /// The amount as a plain integer.
    pub fn value(&self) -> (r: u64)
        ensures
            r == self.0,
    {
        self.0
    }
}

impl From<u64> for Gas {
    fn from(value: u64) -> (r: Gas)
        ensures
            r.0 == value,
    {
        Gas(value)
    }
}

impl vstd::std_specs::convert::FromSpecImpl<u64> for Gas {
    open spec fn obeys_from_spec() -> bool {
        true
    }

    open spec fn from_spec(value: u64) -> Gas {
        Gas(value)
    }
}

} // verus!
