use vstd::prelude::*;

use crate::address::Address;
use crate::amount::U256;
use crate::book::BookState;
use crate::errors::{AlreadyVisited, IndexOutOfBounds, InsufficientPayment, VisitorBookErrors};

verus! {

/// An address counts as visited after a signature exactly when it had
/// visited before, or the signature was its own and was admitted: only an
/// admitted signature from `a` marks `a`, and no signature unmarks anyone.
pub proof fn lemma_visited_once_signed(book: BookState, visitor: Address, payment: U256, a: Address)
    ensures
        book.after_sign(visitor, payment).has_visited(a) == (book.has_visited(a) || (a == visitor
            && book.sign_check(visitor, payment) is Ok)),
{
    let after = book.after_sign(visitor, payment);
    if book.sign_check(visitor, payment) is Ok {
        assert(after.visitors.last() == visitor);
        if book.has_visited(a) {
            let i = choose|i: int| 0 <= i < book.visitors.len() && book.visitors[i] == a;
            assert(after.visitors[i] == a);
        }
        if after.has_visited(a) && a != visitor {
            let i = choose|i: int| 0 <= i < after.visitors.len() && after.visitors[i] == a;
            assert(book.visitors[i] == a);
        }
    }
}

/// Two signatures from the same new address, each paying at least the fee:
/// the first is admitted, the second is refused as a repeat, and the list
/// grows by one.
pub proof fn lemma_second_signature_refused(
    book: BookState,
    visitor: Address,
    first: U256,
    second: U256,
)
    requires
        !book.has_visited(visitor),
        first.value() >= book.fee.value(),
        second.value() >= book.fee.value(),
    ensures
        book.sign_check(visitor, first) is Ok,
        book.after_sign(visitor, first).sign_check(visitor, second) == Err::<(), _>(
            VisitorBookErrors::AlreadyVisited(AlreadyVisited {  }),
        ),
        book.after_sign(visitor, first).after_sign(visitor, second).visitors.len()
            == book.visitors.len() + 1,
{
    lemma_visited_once_signed(book, visitor, first, visitor);
}

/// A signature that pays less than the fee is refused for its payment and
/// leaves the book as it was, whatever the book holds.
pub proof fn lemma_underpaid_signature_inert(book: BookState, visitor: Address, payment: U256)
    requires
        payment.value() < book.fee.value(),
    ensures
        book.sign_check(visitor, payment) == Err::<(), _>(
            VisitorBookErrors::InsufficientPayment(
                InsufficientPayment { visitor: visitor, payment: payment },
            ),
        ),
        book.after_sign(visitor, payment) == book,
{
}

/// A signature keeps every recorded position, puts an admitted visitor at
/// the next position, keeps the visitors distinct, and positions at or past
/// the end stay out of bounds.
pub proof fn lemma_positions_follow_signing_order(
    book: BookState,
    visitor: Address,
    payment: U256,
    index: U256,
)
    requires
        book.visitors.no_duplicates(),
    ensures
        book.after_sign(visitor, payment).visitors.no_duplicates(),
        index.value() < book.visitors.len() ==> book.after_sign(visitor, payment).visitor_at(index)
            == book.visitor_at(index),
        book.sign_check(visitor, payment) is Ok && index.value() == book.visitors.len() ==> book.after_sign(
            visitor,
            payment,
        ).visitor_at(index) == Ok::<_, VisitorBookErrors>(visitor),
        index.value() >= book.after_sign(visitor, payment).visitors.len() ==> book.after_sign(
            visitor,
            payment,
        ).visitor_at(index) == Err::<Address, _>(
            VisitorBookErrors::IndexOutOfBounds(IndexOutOfBounds {  }),
        ),
{
    let after = book.after_sign(visitor, payment);
    if book.sign_check(visitor, payment) is Ok {
        assert forall|i: int, j: int|
            0 <= i < after.visitors.len() && 0 <= j < after.visitors.len() && i != j implies after.visitors[i]
            != after.visitors[j] by {
            if i == book.visitors.len() as int {
                assert(!book.visitors.contains(visitor));
                assert(book.visitors[j] == after.visitors[j]);
            } else if j == book.visitors.len() as int {
                assert(!book.visitors.contains(visitor));
                assert(book.visitors[i] == after.visitors[i]);
            }
        }
    }
}

} // verus!
