use vstd::prelude::*;

verus! {

/// A 160-bit account address, held as its high 32 bits and its low 128 bits.
#[derive(Clone, Copy, Debug, PartialEq, Eq, Structural)]
pub struct Address {
    pub high: u32,
    pub low: u128,
}

impl Address {
    pub fn new(high: u32, low: u128) -> (r: Address)
        ensures
            r.high == high,
            r.low == low,
    {
        Address { high, low }
    }
}

} // verus!
