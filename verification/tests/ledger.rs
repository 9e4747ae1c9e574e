use toybox_brawl::{ErrorCode, Identity, Ledger};

fn id(tag: u8) -> Identity {
    Identity::new([tag; 32])
}

#[test]
fn new_ledger_is_empty() {
    let ledger = Ledger::new();
    assert_eq!(ledger.balance(&id(1)), 0);
    assert_eq!(ledger.balance(&Identity::unset()), 0);
}

#[test]
fn credit_adds_to_one_balance() {
    let mut ledger = Ledger::new();
    assert_eq!(ledger.credit(id(1), 5), Ok(()));
    assert_eq!(ledger.credit(id(2), 7), Ok(()));
    assert_eq!(ledger.credit(id(1), 6), Ok(()));
    assert_eq!(ledger.balance(&id(1)), 11);
    assert_eq!(ledger.balance(&id(2)), 7);
    assert_eq!(ledger.balance(&id(3)), 0);
}

#[test]
fn credit_rejects_overflow() {
    let mut ledger = Ledger::new();
    assert_eq!(ledger.credit(id(1), u64::MAX), Ok(()));
    assert_eq!(ledger.credit(id(1), 1), Err(ErrorCode::TransferFailed));
    assert_eq!(ledger.balance(&id(1)), u64::MAX);
    assert_eq!(ledger.credit(id(1), 0), Ok(()));
    assert_eq!(ledger.credit(id(2), u64::MAX), Ok(()));
}

#[test]
fn debit_takes_from_one_balance() {
    let mut ledger = Ledger::new();
    ledger.credit(id(1), 10).unwrap();
    ledger.credit(id(2), 10).unwrap();
    assert_eq!(ledger.debit(id(1), 4), Ok(()));
    assert_eq!(ledger.balance(&id(1)), 6);
    assert_eq!(ledger.balance(&id(2)), 10);
    assert_eq!(ledger.debit(id(1), 6), Ok(()));
    assert_eq!(ledger.balance(&id(1)), 0);
}

#[test]
fn debit_rejects_more_than_is_held() {
    let mut ledger = Ledger::new();
    ledger.credit(id(1), 10).unwrap();
    assert_eq!(ledger.debit(id(1), 11), Err(ErrorCode::TransferFailed));
    assert_eq!(ledger.balance(&id(1)), 10);
    assert_eq!(ledger.debit(id(2), 1), Err(ErrorCode::TransferFailed));
    assert_eq!(ledger.debit(id(2), 0), Ok(()));
    assert_eq!(ledger.balance(&id(2)), 0);
}

#[test]
fn identities_differ_by_any_byte() {
    let mut bytes = [0u8; 32];
    assert_eq!(Identity::new(bytes), Identity::unset());
    assert!(Identity::new(bytes).is_unset());
    bytes[31] = 1;
    let last = Identity::new(bytes);
    assert_ne!(last, Identity::unset());
    assert!(!last.is_unset());
    bytes[31] = 0;
    bytes[0] = 1;
    let first = Identity::new(bytes);
    assert_ne!(first, last);
    assert_eq!(first, Identity::new(bytes));
    assert_eq!(first.bytes, bytes);

    let mut ledger = Ledger::new();
    ledger.credit(first, 3).unwrap();
    ledger.credit(last, 4).unwrap();
    assert_eq!(ledger.balance(&first), 3);
    assert_eq!(ledger.balance(&last), 4);
    assert_eq!(ledger.balance(&Identity::unset()), 0);
}
