use ledger_engine::account::Account;
use ledger_engine::amount::Amount;
use ledger_engine::balance::Balance;
use ledger_engine::error::{AccountError, BalanceError, ProcessError, TransactionError};
use ledger_engine::processor::{InputEvent, Processor};
use ledger_engine::transaction::{Entry, Event, Kind, Status};

fn units(text: &str) -> Amount {
    Amount::parse(text).unwrap()
}

fn record(typ: &str, client_id: u16, tx_id: u32, amount: Option<&str>) -> InputEvent {
    InputEvent { typ: typ.to_string(), client_id, tx_id, amount: amount.map(units) }
}

fn check(p: &Processor, client_id: u16, available: &str, held: &str, total: &str) {
    let b = p.get_balance(client_id);
    assert_eq!(b.get_available(), units(available));
    assert_eq!(b.held, units(held));
    assert_eq!(b.total, units(total));
}

fn common_prefix(p: &mut Processor, c: u16) {
    assert!(p.handle_event(record("deposit", c, 1, Some("100.00"))).is_ok());
    check(p, c, "100", "0", "100");
    assert!(p.handle_event(record("deposit", c, 2, Some("50.00"))).is_ok());
    check(p, c, "150", "0", "150");
    assert!(p.handle_event(record("withdrawal", c, 3, Some("50.00"))).is_ok());
    check(p, c, "100", "0", "100");
    assert!(p.handle_event(record("dispute", c, 2, None)).is_ok());
    check(p, c, "50", "50", "100");
}

#[test]
fn dispute_without_resolution() {
    let mut p = Processor::new();
    common_prefix(&mut p, 1);
    assert!(p.handle_event(record("deposit", 1, 4, Some("10.00"))).is_ok());
    check(&p, 1, "60", "50", "110");
    assert!(p.handle_event(record("withdrawal", 1, 5, Some("10.00"))).is_ok());
    check(&p, 1, "50", "50", "100");
    let r = p.handle_event(record("withdrawal", 1, 6, Some("70.00")));
    assert_eq!(
        r,
        Err(ProcessError::Account(AccountError::Balance(BalanceError::InsufficientAvailableFunds {
            available: units("50"),
            required: units("70"),
        })))
    );
    check(&p, 1, "50", "50", "100");
    assert!(!p.is_account_locked(1));
}

#[test]
fn resolve_then_dispute_again() {
    let mut p = Processor::new();
    common_prefix(&mut p, 2);
    assert!(p.handle_event(record("resolve", 2, 2, None)).is_ok());
    check(&p, 2, "100", "0", "100");
    let r = p.handle_event(record("dispute", 2, 2, None));
    assert_eq!(r, Err(ProcessError::Account(AccountError::Transaction(TransactionError::AlreadyResolved { tx_id: 2 }))));
    let r = p.handle_event(record("resolve", 2, 2, None));
    assert_eq!(r, Err(ProcessError::Account(AccountError::Transaction(TransactionError::AlreadyResolved { tx_id: 2 }))));
    check(&p, 2, "100", "0", "100");
}

#[test]
fn chargeback_locks_account() {
    let mut p = Processor::new();
    common_prefix(&mut p, 3);
    assert!(p.handle_event(record("chargeback", 3, 2, None)).is_ok());
    check(&p, 3, "50", "0", "50");
    assert!(p.is_account_locked(3));
    assert_eq!(p.handle_event(record("dispute", 3, 2, None)), Err(ProcessError::Account(AccountError::AccountLocked)));
    assert_eq!(p.handle_event(record("deposit", 3, 6, Some("50.00"))), Err(ProcessError::Account(AccountError::AccountLocked)));
    check(&p, 3, "50", "0", "50");
    assert!(p.is_account_locked(3));
}

#[test]
fn unknown_client_reads_as_empty() {
    let mut p = Processor::new();
    assert_eq!(p.get_balance(9), Balance::new());
    assert!(!p.is_account_locked(9));
    assert!(p.handle_event(record("deposit", 1, 1, Some("1"))).is_ok());
    assert_eq!(p.get_balance(9).total.units, 0);
    assert_eq!(p.get_balance(9).held.units, 0);
    assert!(!p.is_account_locked(9));
}

#[test]
fn unknown_type_tag_is_rejected() {
    let mut p = Processor::new();
    assert_eq!(p.handle_event(record("refund", 1, 1, Some("1"))), Err(ProcessError::UnrecognizedEventType));
    assert!(p.snapshot().is_empty());
}

#[test]
fn dispute_errors() {
    let mut p = Processor::new();
    let not_found = p.handle_event(record("dispute", 1, 7, None));
    assert_eq!(not_found, Err(ProcessError::Account(AccountError::Transaction(TransactionError::NotFound { tx_id: 7 }))));
    assert!(p.handle_event(record("deposit", 1, 1, Some("10"))).is_ok());
    assert!(p.handle_event(record("withdrawal", 1, 2, Some("4"))).is_ok());
    let withdrawal = p.handle_event(record("dispute", 1, 2, None));
    assert_eq!(
        withdrawal,
        Err(ProcessError::Account(AccountError::Transaction(TransactionError::InvalidResolutionTarget {
            tx_id: 2,
            expected_kind: Kind::Deposit,
        })))
    );
    let spent = p.handle_event(record("dispute", 1, 1, None));
    assert_eq!(
        spent,
        Err(ProcessError::Account(AccountError::Balance(BalanceError::InsufficientAvailableFunds {
            available: units("6"),
            required: units("10"),
        })))
    );
    assert!(p.handle_event(record("deposit", 1, 3, Some("2.5"))).is_ok());
    assert!(p.handle_event(record("dispute", 1, 3, None)).is_ok());
    let again = p.handle_event(record("dispute", 1, 3, None));
    assert_eq!(again, Err(ProcessError::Account(AccountError::Transaction(TransactionError::AlreadyDisputed { tx_id: 3 }))));
    check(&p, 1, "6", "2.5", "8.5");
}

#[test]
fn resolve_and_chargeback_errors() {
    let mut p = Processor::new();
    assert!(p.handle_event(record("deposit", 1, 1, Some("10"))).is_ok());
    let r = p.handle_event(record("resolve", 1, 1, None));
    assert_eq!(r, Err(ProcessError::Account(AccountError::Transaction(TransactionError::NotDisputed { tx_id: 1 }))));
    let r = p.handle_event(record("chargeback", 1, 1, None));
    assert_eq!(r, Err(ProcessError::Account(AccountError::Transaction(TransactionError::NotDisputed { tx_id: 1 }))));
    let r = p.handle_event(record("chargeback", 1, 5, None));
    assert_eq!(r, Err(ProcessError::Account(AccountError::Transaction(TransactionError::NotFound { tx_id: 5 }))));
    assert!(p.handle_event(record("dispute", 1, 1, None)).is_ok());
    assert!(p.handle_event(record("chargeback", 1, 1, None)).is_ok());
    check(&p, 1, "0", "0", "0");

    let mut q = Processor::new();
    assert!(q.handle_event(record("deposit", 4, 1, Some("10"))).is_ok());
    assert!(q.handle_event(record("dispute", 4, 1, None)).is_ok());
    assert!(q.handle_event(record("resolve", 4, 1, None)).is_ok());
    let r = q.handle_event(record("chargeback", 4, 1, None));
    assert_eq!(r, Err(ProcessError::Account(AccountError::Transaction(TransactionError::AlreadyResolved { tx_id: 1 }))));
}

#[test]
fn charged_back_entry_reports_its_status() {
    let mut a = Account::new(5);
    let dep = Event::Deposit { tx_id: 1, client_id: 5, amount: units("3") };
    assert!(a.apply_event(dep).is_ok());
    assert!(a.apply_event(Event::Dispute { client_id: 5, disputed_tx_id: 1 }).is_ok());
    assert!(a.apply_event(Event::Chargeback { client_id: 5, disputed_tx_id: 1 }).is_ok());
    assert!(a.is_locked);
    assert_eq!(a.balance.total.units, 0);
    assert_eq!(a.apply_event(dep), Err(AccountError::AccountLocked));
    let entry = *a.txs.get(&1).unwrap();
    assert_eq!(entry, Entry { tx: dep, kind: Kind::Deposit, status: Status::ChargedBack });
}

#[test]
fn fresh_account_total_is_net_flow() {
    let mut p = Processor::new();
    assert!(p.handle_event(record("deposit", 7, 1, Some("1.2345"))).is_ok());
    assert!(p.handle_event(record("deposit", 7, 2, Some("3"))).is_ok());
    assert!(p.handle_event(record("withdrawal", 7, 3, Some("0.2345"))).is_ok());
    assert!(p.handle_event(record("withdrawal", 7, 4, Some("100"))).is_err());
    check(&p, 7, "4", "0", "4");
}

#[test]
fn missing_amount_counts_as_zero() {
    let mut p = Processor::new();
    assert!(p.handle_event(record("deposit", 1, 1, None)).is_ok());
    check(&p, 1, "0", "0", "0");
    assert_eq!(p.snapshot().len(), 1);
}

#[test]
fn duplicate_transaction_id_overwrites_entry() {
    let mut p = Processor::new();
    assert!(p.handle_event(record("deposit", 1, 1, Some("5"))).is_ok());
    assert!(p.handle_event(record("deposit", 1, 1, Some("7"))).is_ok());
    assert!(p.handle_event(record("dispute", 1, 1, None)).is_ok());
    check(&p, 1, "5", "7", "12");
}

#[test]
fn balance_primitives() {
    let mut b = Balance::new();
    b.credit(units("10"));
    assert_eq!(b.debit(units("11")), Err(BalanceError::InsufficientAvailableFunds { available: units("10"), required: units("11") }));
    assert_eq!(b.hold(units("4")), Ok(()));
    assert_eq!(b.get_available(), units("6"));
    assert!(b.has_enough_available(units("6")));
    assert!(!b.has_enough_available(units("6.0001")));
    assert!(b.has_enough_held(units("4")));
    assert_eq!(b.release_held(units("5")), Err(BalanceError::InsufficientHeldFunds { held: units("4"), required: units("5") }));
    assert_eq!(b.burn_held(units("5")), Err(BalanceError::InsufficientHeldFunds { held: units("4"), required: units("5") }));
    assert_eq!(b.release_held(units("1")), Ok(()));
    assert_eq!(b.burn_held(units("3")), Ok(()));
    assert_eq!(b.total, units("7"));
    assert_eq!(b.held, units("0"));
    assert_eq!(b.debit(units("7")), Ok(()));
    assert_eq!(b.total.units, 0);
}

#[test]
fn total_overflow_is_rejected() {
    let mut a = Account::new(1);
    let big = Amount::from_units(u128::MAX);
    assert!(a.apply_event(Event::Deposit { tx_id: 1, client_id: 1, amount: big }).is_ok());
    let r = a.apply_event(Event::Deposit { tx_id: 2, client_id: 1, amount: Amount::from_units(1) });
    assert_eq!(r, Err(AccountError::TotalOverflow { total: big, amount: Amount::from_units(1) }));
    assert_eq!(a.balance.total, big);
}

#[test]
fn amount_parsing() {
    assert_eq!(Amount::parse("1.5"), Some(Amount::from_units(15000)));
    assert_eq!(Amount::parse("100.00"), Some(Amount::from_units(1_000_000)));
    assert_eq!(Amount::parse("0.0001"), Some(Amount::from_units(1)));
    assert_eq!(Amount::parse("2.50000"), Some(Amount::from_units(25000)));
    assert_eq!(Amount::parse("2.00001"), None);
    assert_eq!(Amount::parse("-1"), None);
    assert_eq!(Amount::parse("abc"), None);
    assert_eq!(Amount::parse("123"), Some(Amount::from_units(1_230_000)));
    assert_eq!(Amount::parse("1.20000"), Some(Amount::from_units(12000)));
    assert_eq!(Amount::parse("-0.05"), None);
    assert_eq!(Amount::zero().units, 0);
}

#[test]
fn event_decoding() {
    let ev = Event::try_from(record("withdrawal", 3, 9, Some("2"))).unwrap();
    assert_eq!(ev, Event::Withdrawal { tx_id: 9, client_id: 3, amount: units("2") });
    let ev = Event::try_from(record("resolve", 3, 9, Some("2"))).unwrap();
    assert_eq!(ev, Event::Resolve { client_id: 3, disputed_tx_id: 9 });
    assert_eq!(Event::try_from(record("Deposit", 3, 9, None)), Err(ProcessError::UnrecognizedEventType));
}

#[test]
fn snapshot_lists_every_account() {
    let mut p = Processor::new();
    assert!(p.handle_event(record("deposit", 1, 1, Some("5"))).is_ok());
    assert!(p.handle_event(record("deposit", 2, 2, Some("8"))).is_ok());
    assert!(p.handle_event(record("dispute", 2, 2, None)).is_ok());
    assert!(p.handle_event(record("chargeback", 2, 2, None)).is_ok());
    let mut rows = p.snapshot();
    rows.sort_by_key(|r| r.client);
    assert_eq!(rows.len(), 2);
    assert_eq!((rows[0].client, rows[0].available, rows[0].held, rows[0].total, rows[0].locked), (1, units("5"), units("0"), units("5"), false));
    assert_eq!((rows[1].client, rows[1].available, rows[1].total, rows[1].locked), (2, units("0"), units("0"), true));
}

#[test]
fn entry_starts_normal() {
    let ev = Event::Deposit { tx_id: 1, client_id: 1, amount: units("1") };
    let e = Entry::new(Kind::Deposit, ev);
    assert_eq!(e.status, Status::Normal);
    assert_eq!(e.tx, ev);
}
