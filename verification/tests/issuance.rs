use mint_lock::{Issuance, IssuanceLog, MintInterface, Principal};

#[test]
fn log_records_what_it_issues_in_order() {
    let alice = Principal::account(0, 1);
    let bob = Principal::account(0, 2);
    let mut log = IssuanceLog::with_capacity(3);
    assert_eq!(log.capacity(), 3);
    assert!(log.entries().is_empty());
    assert!(log.mint(alice, 5));
    assert!(log.mint(bob, 0));
    assert_eq!(
        log.entries().as_slice(),
        &[Issuance { to: alice, amount: 5 }, Issuance { to: bob, amount: 0 }]
    );
}

#[test]
fn full_log_issues_no_more() {
    let alice = Principal::account(0, 1);
    let mut log = IssuanceLog::with_capacity(1);
    assert!(log.mint(alice, 5));
    assert!(!log.mint(alice, 6));
    assert_eq!(log.entries().as_slice(), &[Issuance { to: alice, amount: 5 }]);
    let mut none = IssuanceLog::with_capacity(0);
    assert!(!none.mint(alice, 1));
    assert!(none.entries().is_empty());
}
