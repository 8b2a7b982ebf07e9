use vstd::prelude::*;

use crate::address::Address;
use crate::amount::U256;

verus! {

/// The payment attached to a signature was below the fee.
#[derive(Clone, Copy, Debug, PartialEq, Eq, Structural)]
pub struct InsufficientPayment {
    pub visitor: Address,
    pub payment: U256,
}

/// The reward could not be sent to the visitor.
#[derive(Clone, Copy, Debug, PartialEq, Eq, Structural)]
pub struct TransferFailed {
    pub recipient: Address,
    pub amount: U256,
}

/// The caller has signed the book before.
#[derive(Clone, Copy, Debug, PartialEq, Eq, Structural)]
pub struct AlreadyVisited {}

/// A read past the end of the visitor list.
#[derive(Clone, Copy, Debug, PartialEq, Eq, Structural)]
pub struct IndexOutOfBounds {}

/// Every way in which an operation on the book can be rejected.
#[derive(Clone, Copy, Debug, PartialEq, Eq, Structural)]
pub enum VisitorBookErrors {
    InsufficientPayment(InsufficientPayment),
    TransferFailed(TransferFailed),
    AlreadyVisited(AlreadyVisited),
    IndexOutOfBounds(IndexOutOfBounds),
}

} // verus!
