use favorites::{Address, Ledger};

#[test]
fn new_ledger_holds_no_record() {
    let ledger = Ledger::new(10);
    for byte in 0..=255u8 {
        let address = Address { bytes: [byte; 32] };
        assert!(!ledger.contains(&address));
        assert_eq!(ledger.read(&address), None);
    }
}

#[test]
fn new_ledger_keeps_the_creation_cost() {
    assert_eq!(Ledger::new(0).creation_cost(), 0);
    assert_eq!(Ledger::new(2_394_240).creation_cost(), 2_394_240);
    assert_eq!(Ledger::new(u64::MAX).creation_cost(), u64::MAX);
}
