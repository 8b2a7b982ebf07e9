use vstd::prelude::*;

use crate::address::Address;
use crate::amount::U256;
use crate::errors::{
    AlreadyVisited, IndexOutOfBounds, InsufficientPayment, TransferFailed, VisitorBookErrors,
};

verus! {

/// A reward that the host is asked to send once a visit is recorded.
#[derive(Clone, Copy, Debug, PartialEq, Eq, Structural)]
pub struct Reward {
    pub recipient: Address,
    pub amount: U256,
}

/// Whether a visitor may sign: the payment must reach the fee, then the
/// visitor must be new. The payment is checked first.
pub open spec fn admission(fee: U256, visitor: Address, payment: U256, already_visited: bool) -> Result<
    (),
    VisitorBookErrors,
> {
    if payment.value() < fee.value() {
        Err(
            VisitorBookErrors::InsufficientPayment(
                InsufficientPayment { visitor: visitor, payment: payment },
            ),
        )
    } else if already_visited {
        Err(VisitorBookErrors::AlreadyVisited(AlreadyVisited {  }))
    } else {
        Ok(())
    }
}

/// The reward owed to a new visitor: the fee, when the balance covers it.
pub open spec fn owed_reward(fee: U256, visitor: Address, balance: U256) -> Option<Reward> {
    if balance.value() >= fee.value() {
        Some(Reward { recipient: visitor, amount: fee })
    } else {
        None
    }
}

/// What the caller of a signature learns once a reward transfer was tried.
pub open spec fn settlement(reward: Reward, sent: bool) -> Result<(), VisitorBookErrors> {
    if sent {
        Ok(())
    } else {
        Err(
            VisitorBookErrors::TransferFailed(
                TransferFailed { recipient: reward.recipient, amount: reward.amount },
            ),
        )
    }
}

/// The position that `index` names in a list of `len` entries.
pub open spec fn position(index: U256, len: nat) -> Result<nat, VisitorBookErrors> {
    if index.value() < len {
        Ok(index.value())
    } else {
        Err(VisitorBookErrors::IndexOutOfBounds(IndexOutOfBounds {  }))
    }
}

/// Decides whether a signature is admitted; see `admission`.
pub fn check_admission(fee: &U256, visitor: Address, payment: U256, already_visited: bool) -> (r:
    Result<(), VisitorBookErrors>)
    ensures
        r == admission(*fee, visitor, payment, already_visited),
{
    if payment.lt(fee) {
        Err(
            VisitorBookErrors::InsufficientPayment(
                InsufficientPayment { visitor: visitor, payment: payment },
            ),
        )
    } else if already_visited {
        Err(VisitorBookErrors::AlreadyVisited(AlreadyVisited {  }))
    } else {
        Ok(())
    }
}

/// Decides which reward, if any, to send; see `owed_reward`.
pub fn reward_for(fee: &U256, visitor: Address, balance: U256) -> (r: Option<Reward>)
    ensures
        r == owed_reward(*fee, visitor, balance),
{
    if balance.lt(fee) {
        None
    } else {
        Some(Reward { recipient: visitor, amount: *fee })
    }
}

/// Turns the outcome of a reward transfer into the signature's result.
/// A failed transfer is reported, but the visit it followed stays recorded.
pub fn settle_reward(reward: &Reward, sent: bool) -> (r: Result<(), VisitorBookErrors>)
    ensures
        r == settlement(*reward, sent),
{
    if sent {
        Ok(())
    } else {
        Err(
            VisitorBookErrors::TransferFailed(
                TransferFailed { recipient: reward.recipient, amount: reward.amount },
            ),
        )
    }
}

/// The position in a list of `len` entries that `index` names.
pub fn index_position(index: &U256, len: usize) -> (r: Result<usize, VisitorBookErrors>)
    ensures
        match (r, position(*index, len as nat)) {
            (Ok(i), Ok(p)) => i as nat == p,
            (Err(e), Err(f)) => e == f,
            _ => false,
        },
{
    proof {
        crate::amount::lemma_value_order(*index, U256 { high: 0, low: len as u128 });
    }
    if index.high == 0 && index.low < len as u128 {
        Ok(index.low as usize)
    } else {
        Err(VisitorBookErrors::IndexOutOfBounds(IndexOutOfBounds {  }))
    }
}

} // verus!
