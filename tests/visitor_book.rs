use visitor_book::{
    check_admission, index_position, reward_for, settle_reward, Address, AlreadyVisited,
    IndexOutOfBounds, InsufficientPayment, Reward, TransferFailed, VisitorBook,
    VisitorBookErrors, SIGNING_FEE, U256,
};

fn addr(n: u128) -> Address {
    Address::new(0, n)
}

fn wei(n: u128) -> U256 {
    U256::from_u128(n)
}

fn ready_book() -> VisitorBook {
    let mut book = VisitorBook::new();
    book.initialize();
    book
}

#[test]
fn scenario_sign_once() {
    let mut book = ready_book();
    let x = addr(0xabc);
    let visit = book.sign_guestbook(x, wei(100), "hi".to_string()).unwrap();
    assert_eq!(visit.sender, x);
    assert_eq!(visit.message, "hi");
    assert!(book.has_address_visited(x));
    assert_eq!(book.get_total_visitors(), wei(1));
    assert_eq!(book.get_visitor_at_index(wei(0)), Ok(x));
}

#[test]
fn scenario_underpaid() {
    let mut book = ready_book();
    let x = addr(0xabc);
    let r = book.sign_guestbook(x, wei(50), "hi".to_string());
    assert_eq!(
        r.err(),
        Some(VisitorBookErrors::InsufficientPayment(InsufficientPayment {
            visitor: x,
            payment: wei(50)
        }))
    );
    assert_eq!(book.get_total_visitors(), wei(0));
    assert!(!book.has_address_visited(x));
}

#[test]
fn scenario_sign_twice() {
    let mut book = ready_book();
    let x = addr(0xabc);
    assert!(book.sign_guestbook(x, wei(100), "hi".to_string()).is_ok());
    let r = book.sign_guestbook(x, wei(100), "again".to_string());
    assert_eq!(
        r.err(),
        Some(VisitorBookErrors::AlreadyVisited(AlreadyVisited {}))
    );
    assert_eq!(book.get_total_visitors(), wei(1));
}

#[test]
fn scenario_reward_transfer_fails() {
    let mut book = ready_book();
    let x = addr(0xabc);
    assert!(book.sign_guestbook(x, wei(100), "hi".to_string()).is_ok());
    let reward = book.reward_due(x, wei(100)).unwrap();
    assert_eq!(reward, Reward { recipient: x, amount: wei(100) });
    assert_eq!(
        settle_reward(&reward, false),
        Err(VisitorBookErrors::TransferFailed(TransferFailed {
            recipient: x,
            amount: wei(100)
        }))
    );
    assert!(book.has_address_visited(x));
    assert_eq!(book.get_total_visitors(), wei(1));
}

#[test]
fn reward_sent_settles_ok() {
    let reward = Reward { recipient: addr(1), amount: wei(100) };
    assert_eq!(settle_reward(&reward, true), Ok(()));
}

#[test]
fn no_reward_below_fee() {
    let book = ready_book();
    assert_eq!(book.reward_due(addr(1), wei(99)), None);
    assert_eq!(reward_for(&wei(100), addr(1), wei(99)), None);
    assert_eq!(
        reward_for(&wei(100), addr(1), wei(250)),
        Some(Reward { recipient: addr(1), amount: wei(100) })
    );
}

#[test]
fn empty_book_index_out_of_bounds() {
    let book = ready_book();
    assert_eq!(
        book.get_visitor_at_index(wei(5)),
        Err(VisitorBookErrors::IndexOutOfBounds(IndexOutOfBounds {}))
    );
}

#[test]
fn unvisited_until_signed() {
    let mut book = ready_book();
    let a = addr(10);
    let b = addr(11);
    assert!(!book.has_address_visited(a));
    assert!(book.sign_guestbook(b, wei(500), String::new()).is_ok());
    assert!(!book.has_address_visited(a));
    assert!(book.sign_guestbook(a, wei(10), String::new()).is_err());
    assert!(!book.has_address_visited(a));
    assert!(book.sign_guestbook(a, wei(100), String::new()).is_ok());
    assert!(book.has_address_visited(a));
    assert!(book.sign_guestbook(addr(12), wei(100), String::new()).is_ok());
    assert!(book.sign_guestbook(a, wei(100), String::new()).is_err());
    assert!(book.has_address_visited(a));
}

#[test]
fn underpaid_after_visits_leaves_book_alone() {
    let mut book = ready_book();
    assert!(book.sign_guestbook(addr(1), wei(100), String::new()).is_ok());
    assert!(book.sign_guestbook(addr(2), wei(100), String::new()).is_ok());
    assert!(book.sign_guestbook(addr(1), wei(99), String::new()).is_err());
    assert!(book.sign_guestbook(addr(3), wei(0), String::new()).is_err());
    assert_eq!(book.get_total_visitors(), wei(2));
    assert!(!book.has_address_visited(addr(3)));
    assert_eq!(book.get_visitor_at_index(wei(0)), Ok(addr(1)));
    assert_eq!(book.get_visitor_at_index(wei(1)), Ok(addr(2)));
}

#[test]
fn payment_checked_before_repeat() {
    let mut book = ready_book();
    let x = addr(4);
    assert!(book.sign_guestbook(x, wei(100), String::new()).is_ok());
    assert_eq!(
        book.sign_guestbook(x, wei(1), String::new()).err(),
        Some(VisitorBookErrors::InsufficientPayment(InsufficientPayment {
            visitor: x,
            payment: wei(1)
        }))
    );
}

#[test]
fn positions_in_signing_order() {
    let mut book = ready_book();
    let order = [addr(30), Address::new(7, 2), addr(10), Address::new(u32::MAX, u128::MAX)];
    for a in order.iter() {
        assert!(book.sign_guestbook(*a, wei(100), String::new()).is_ok());
        assert!(book.sign_guestbook(*a, wei(100), String::new()).is_err());
    }
    assert_eq!(book.get_total_visitors(), wei(4));
    for (i, a) in order.iter().enumerate() {
        assert_eq!(book.get_visitor_at_index(wei(i as u128)), Ok(*a));
    }
    for i in [4u128, 5, u128::MAX] {
        assert!(book.get_visitor_at_index(wei(i)).is_err());
    }
    let huge = U256 { high: 1, low: 0 };
    assert!(book.get_visitor_at_index(huge).is_err());
}

#[test]
fn reads_repeat_identically() {
    let mut book = ready_book();
    assert!(book.sign_guestbook(addr(5), wei(100), String::new()).is_ok());
    for _ in 0..3 {
        assert_eq!(book.get_total_visitors(), wei(1));
        assert_eq!(book.get_visitor_at_index(wei(0)), Ok(addr(5)));
        assert_eq!(book.get_visitor_at_index(wei(1)).is_err(), true);
        assert!(book.has_address_visited(addr(5)));
        assert!(!book.has_address_visited(addr(6)));
    }
}

#[test]
fn fee_zero_before_initialize() {
    let mut book = VisitorBook::new();
    assert!(book.sign_guestbook(addr(1), wei(0), String::new()).is_ok());
    book.initialize();
    book.initialize();
    assert!(book.sign_guestbook(addr(2), wei(99), String::new()).is_err());
    assert!(book.sign_guestbook(addr(2), wei(SIGNING_FEE), String::new()).is_ok());
    assert_eq!(book.get_total_visitors(), wei(2));
}

#[test]
fn large_payment_accepted() {
    let mut book = ready_book();
    let big = U256 { high: 3, low: 0 };
    assert!(book.sign_guestbook(addr(9), big, String::new()).is_ok());
    assert!(book.reward_due(addr(9), big).is_some());
}

#[test]
fn amount_order() {
    let a = U256 { high: 1, low: 0 };
    let b = U256 { high: 0, low: u128::MAX };
    assert!(b.lt(&a));
    assert!(!a.lt(&b));
    assert!(!a.lt(&a));
    assert!(wei(3).lt(&wei(4)));
    assert_eq!(U256::zero(), wei(0));
    assert_eq!(U256::from_usize(42), wei(42));
}

#[test]
fn admission_rules() {
    let fee = wei(100);
    let x = addr(2);
    assert_eq!(check_admission(&fee, x, wei(100), false), Ok(()));
    assert_eq!(
        check_admission(&fee, x, wei(100), true),
        Err(VisitorBookErrors::AlreadyVisited(AlreadyVisited {}))
    );
    assert_eq!(
        check_admission(&fee, x, wei(99), true),
        Err(VisitorBookErrors::InsufficientPayment(InsufficientPayment {
            visitor: x,
            payment: wei(99)
        }))
    );
}

#[test]
fn index_positions() {
    assert_eq!(index_position(&wei(2), 3), Ok(2));
    assert_eq!(
        index_position(&wei(3), 3),
        Err(VisitorBookErrors::IndexOutOfBounds(IndexOutOfBounds {}))
    );
    assert!(index_position(&U256 { high: 1, low: 1 }, 3).is_err());
}
