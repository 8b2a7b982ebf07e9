use vstd::prelude::*;

use crate::address::Address;
use crate::amount::U256;
use crate::errors::VisitorBookErrors;
use crate::steps::{
    admission, check_admission, index_position, owed_reward, position, reward_for, Reward,
};

verus! {

/// The fee, in the smallest unit of value, that `initialize` sets.
pub const SIGNING_FEE: u128 = 100;

/// The event published for each recorded visit.
pub struct Visit {
    pub sender: Address,
    pub message: String,
}

/// What a book holds: its fee and its visitors in the order they signed.
pub struct BookState {
    pub fee: U256,
    pub visitors: Seq<Address>,
}

impl BookState {
    pub open spec fn has_visited(self, a: Address) -> bool {
        self.visitors.contains(a)
    }

    /// The answer a signature from `visitor` with `payment` gets.
    pub open spec fn sign_check(self, visitor: Address, payment: U256) -> Result<(), VisitorBookErrors> {
        admission(self.fee, visitor, payment, self.has_visited(visitor))
    }

    /// The state after a signature from `visitor` with `payment`: the visitor
    /// is appended when admitted, and nothing changes otherwise.
    pub open spec fn after_sign(self, visitor: Address, payment: U256) -> BookState {
        if self.sign_check(visitor, payment) is Ok {
            BookState { fee: self.fee, visitors: self.visitors.push(visitor) }
        } else {
            self
        }
    }

    pub open spec fn visitor_at(self, index: U256) -> Result<Address, VisitorBookErrors> {
        match position(index, self.visitors.len()) {
            Ok(i) => Ok(self.visitors[i as int]),
            Err(e) => Err(e),
        }
    }
}

/// A registry of visitors: each address may sign once, against a fee.
pub struct VisitorBook {
    fee: U256,
    visitors: Vec<Address>,
}

impl View for VisitorBook {
    type V = BookState;

    closed spec fn view(&self) -> BookState {
        BookState { fee: self.fee, visitors: self.visitors@ }
    }
}

impl VisitorBook {
    /// Each visitor appears once.
    pub open spec fn wf(&self) -> bool {
        self@.visitors.no_duplicates()
    }

    /// An empty book whose fee is still zero.
    pub fn new() -> (r: VisitorBook)
        ensures
            r.wf(),
            r@.fee.value() == 0,
            r@.visitors.len() == 0,
    {
        VisitorBook { fee: U256::zero(), visitors: Vec::new() }
    }

    /// Sets the fee to `SIGNING_FEE`. Calling it again sets the same fee, so
    /// repeated calls have the effect of one.
    pub fn initialize(&mut self)
        requires
            old(self).wf(),
        ensures
            final(self).wf(),
            final(self)@.fee.value() == SIGNING_FEE,
            final(self)@.visitors == old(self)@.visitors,
    {
        self.fee = U256::from_u128(SIGNING_FEE);
    }

    /// Records `visitor` when the payment reaches the fee and the visitor is
    /// new, and returns the event to publish. A rejected signature changes
    /// nothing. The event is for the host to publish; the reward is decided
    /// afterwards with `reward_due` and `settle_reward`, and a failed transfer
    /// does not undo the visit recorded here.
    pub fn sign_guestbook(&mut self, visitor: Address, payment: U256, message: String) -> (r:
        Result<Visit, VisitorBookErrors>)
        requires
            old(self).wf(),
        ensures
            final(self).wf(),
            final(self)@ == old(self)@.after_sign(visitor, payment),
            final(self)@.has_visited(visitor) == (old(self)@.has_visited(visitor) || r is Ok),
            match r {
                Ok(v) => old(self)@.sign_check(visitor, payment) is Ok && v.sender == visitor
                    && v.message@ == message@,
                Err(e) => old(self)@.sign_check(visitor, payment) == Err::<(), _>(e),
            },
    {
        let seen = self.has_address_visited(visitor);
        match check_admission(&self.fee, visitor, payment, seen) {
            Err(e) => Err(e),
            Ok(()) => {
                self.visitors.push(visitor);
                proof {
                    assert(forall|i: int|
                        0 <= i < old(self)@.visitors.len() ==> self@.visitors[i]
                            == old(self)@.visitors[i]);
                    assert(self@.visitors[old(self)@.visitors.len() as int] == visitor);
                }
                Ok(Visit { sender: visitor, message })
            },
        }
    }

    /// The reward to send to a visitor just recorded, given the book's
    /// balance (which already counts the visitor's payment).
    pub fn reward_due(&self, visitor: Address, balance: U256) -> (r: Option<Reward>)
        ensures
            r == owed_reward(self@.fee, visitor, balance),
    {
        reward_for(&self.fee, visitor, balance)
    }

    pub fn get_total_visitors(&self) -> (r: U256)
        ensures
            r.value() == self@.visitors.len(),
    {
        U256::from_usize(self.visitors.len())
    }

    pub fn get_visitor_at_index(&self, index: U256) -> (r: Result<Address, VisitorBookErrors>)
        ensures
            r == self@.visitor_at(index),
    {
        match index_position(&index, self.visitors.len()) {
            Ok(i) => Ok(self.visitors[i]),
            Err(e) => Err(e),
        }
    }

    pub fn has_address_visited(&self, address: Address) -> (r: bool)
        ensures
            r == self@.has_visited(address),
    {
        let mut i: usize = 0;
        while i < self.visitors.len()
            invariant
                i <= self.visitors@.len(),
                forall|j: int| 0 <= j < i ==> self.visitors@[j] != address,
            decreases self.visitors@.len() - i,
        {
            if self.visitors[i] == address {
                return true;
            }
            i = i + 1;
        }
        false
    }
}

} // verus!
