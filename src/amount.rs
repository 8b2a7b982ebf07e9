use vstd::prelude::*;

verus! {

/// The number of distinct values of one 128-bit limb.
pub open spec fn limb_base() -> nat {
    0x1_0000_0000_0000_0000_0000_0000_0000_0000nat
}

/// An unsigned 256-bit integer, held as a high and a low 128-bit limb.
#[derive(Clone, Copy, Debug, PartialEq, Eq, Structural)]
pub struct U256 {
    pub high: u128,
    pub low: u128,
}

impl U256 {
    /// The number this value stands for.
    pub open spec fn value(self) -> nat {
        self.high as nat * limb_base() + self.low as nat
    }

    pub fn zero() -> (r: U256)
        ensures
            r.value() == 0,
    {
        U256 { high: 0, low: 0 }
    }

    pub fn from_u128(v: u128) -> (r: U256)
        ensures
            r.value() == v as nat,
    {
        U256 { high: 0, low: v }
    }

    pub fn from_usize(v: usize) -> (r: U256)
        ensures
            r.value() == v as nat,
    {
        U256 { high: 0, low: v as u128 }
    }

    /// Whether `self` is strictly below `other`.
    pub fn lt(&self, other: &U256) -> (r: bool)
        ensures
            r == (self.value() < other.value()),
    {
        proof {
            lemma_value_order(*self, *other);
            lemma_value_order(*other, *self);
        }
        self.high < other.high || (self.high == other.high && self.low < other.low)
    }
}

/// Values compare as their limbs do, high limb first.
pub proof fn lemma_value_order(a: U256, b: U256)
    ensures
        a.high < b.high ==> a.value() < b.value(),
        a.high == b.high ==> (a.value() < b.value() <==> a.low < b.low),
{
    let base = limb_base();
    let (ah, al, bh, bl) = (a.high as int, a.low as int, b.high as int, b.low as int);
    assert(0 <= al < base && 0 <= bl);
    if ah < bh {
        assert(ah * base + al < bh * base + bl) by (nonlinear_arith)
            requires
                ah < bh,
                0 <= al < base,
                0 <= bl,
                base > 0,
        ;
    }
}

} // verus!
