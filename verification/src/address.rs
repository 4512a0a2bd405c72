//! Addresses.
use vstd::prelude::*;

verus! {

/// An account or contract, named by a number that stands for its address.
#[derive(Clone, Copy, Debug, PartialEq, Eq, Structural, Hash)]
pub struct Address {
    pub id: u64,
}

} // verus!
