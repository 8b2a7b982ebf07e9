//! A guest book that records each paying visitor once and pays a fixed
//! reward back when the book's balance allows it.
//!
//! The decisions are plain functions of the book's state and of the values
//! the host supplies (caller, attached payment, balance, outcome of a
//! transfer); performing the transfer and publishing the event is left to
//! the host.
mod address;
mod amount;
mod book;
mod errors;
mod laws;
mod steps;

pub use address::Address;
pub use amount::U256;
pub use book::{BookState, Visit, VisitorBook, SIGNING_FEE};
pub use errors::{
    AlreadyVisited, IndexOutOfBounds, InsufficientPayment, TransferFailed, VisitorBookErrors,
};
pub use laws::{
    lemma_positions_follow_signing_order, lemma_second_signature_refused,
    lemma_underpaid_signature_inert, lemma_visited_once_signed,
};
pub use steps::{check_admission, index_position, reward_for, settle_reward, Reward};
