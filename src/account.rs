use vstd::prelude::*;
use dashmap::DashMap;
use crate::amount::Amount;
use crate::balance::Balance;
use crate::error::{AccountError, BalanceError, TransactionError};
use crate::transaction::{Entry, Event, Kind, Status};

verus! {

/// Declares `dashmap::DashMap`, the concurrent map that holds ledgers and accounts; its
/// contents are only seen through the wrappers below and in the processor.
#[verifier::external_type_specification]
#[verifier::external_body]
#[verifier::reject_recursive_types(K)]
#[verifier::reject_recursive_types(V)]
#[verifier::reject_recursive_types(S)]
pub struct ExDashMap<K, V, S>(DashMap<K, V, S>);

/// The entries a ledger map holds, by transaction id.
pub uninterp spec fn ledger_entries(m: DashMap<u32, Entry>) -> Map<u32, Entry>;

/// A ledger without entries.
pub open spec fn empty_ledger() -> Map<u32, Entry> {
    Map::empty()
}

/// Relies on `DashMap::new`: the new map holds no entry.
#[verifier::external_body]
fn ledger_new() -> (r: DashMap<u32, Entry>)
    ensures
        ledger_entries(r) == empty_ledger(),
{
    DashMap::new()
}

/// Relies on `DashMap::get`: the entry stored under `tx_id`, if any.
#[verifier::external_body]
fn ledger_get(m: &DashMap<u32, Entry>, tx_id: u32) -> (r: Option<Entry>)
    ensures
        ledger_entries(*m).contains_key(tx_id) ==> r == Some(ledger_entries(*m)[tx_id]),
        !ledger_entries(*m).contains_key(tx_id) ==> r is None,
{
    m.get(&tx_id).map(|e| *e)
}

/// Relies on `DashMap::insert`: stores `entry` under `tx_id`, replacing any earlier one.
#[verifier::external_body]
fn ledger_insert(m: &mut DashMap<u32, Entry>, tx_id: u32, entry: Entry)
    ensures
        ledger_entries(*final(m)) == ledger_entries(*old(m)).insert(tx_id, entry),
{
    m.insert(tx_id, entry);
}

/// One client's account: its balance, its lock, and its ledger of deposits and withdrawals.
pub struct Account {
    pub id: u16,
    pub is_locked: bool,
    pub balance: Balance,
    pub txs: DashMap<u32, Entry>,
}

/// The error a dispute, resolve or chargeback gets when the amount is not covered.
pub open spec fn insufficient_available(bal: Balance, required: Amount) -> AccountError {
    AccountError::Balance(
        BalanceError::InsufficientAvailableFunds {
            available: Amount { units: bal.available() as u128 },
            required,
        },
    )
}

pub open spec fn insufficient_held(bal: Balance, required: Amount) -> AccountError {
    AccountError::Balance(BalanceError::InsufficientHeldFunds { held: bal.held, required })
}

/// `entry` with its status replaced.
pub open spec fn with_status(entry: Entry, status: Status) -> Entry {
    Entry { tx: entry.tx, kind: entry.kind, status }
}

/// The outcome of disputing `tx_id`: the new balance and ledger, or the error.
pub open spec fn dispute_outcome(bal: Balance, ledger: Map<u32, Entry>, tx_id: u32) -> Result<
    (Balance, Map<u32, Entry>),
    AccountError,
> {
    if !ledger.contains_key(tx_id) {
        Err(AccountError::Transaction(TransactionError::NotFound { tx_id }))
    } else {
        let e = ledger[tx_id];
        match e.tx {
            Event::Deposit { amount, .. } => match e.status {
                Status::Normal => if bal.available() >= amount.units {
                    Ok(
                        (
                            Balance::of(bal.total.units as int, bal.held.units + amount.units),
                            ledger.insert(tx_id, with_status(e, Status::Disputed)),
                        ),
                    )
                } else {
                    Err(insufficient_available(bal, amount))
                },
                Status::Disputed => Err(
                    AccountError::Transaction(TransactionError::AlreadyDisputed { tx_id }),
                ),
                Status::Resolved => Err(
                    AccountError::Transaction(TransactionError::AlreadyResolved { tx_id }),
                ),
                Status::ChargedBack => Err(
                    AccountError::Transaction(TransactionError::AlreadyChargedBack { tx_id }),
                ),
            },
            _ => Err(
                AccountError::Transaction(
                    TransactionError::InvalidResolutionTarget { tx_id, expected_kind: Kind::Deposit },
                ),
            ),
        }
    }
}

/// The amount of the disputed deposit `tx_id`, or the error that a resolve or a
/// chargeback of it gets.
pub open spec fn disputed_amount_of(ledger: Map<u32, Entry>, tx_id: u32) -> Result<
    Amount,
    AccountError,
> {
    if !ledger.contains_key(tx_id) {
        Err(AccountError::Transaction(TransactionError::NotFound { tx_id }))
    } else {
        let e = ledger[tx_id];
        match e.tx {
            Event::Deposit { amount, .. } => match e.status {
                Status::Disputed => Ok(amount),
                Status::Normal => Err(
                    AccountError::Transaction(TransactionError::NotDisputed { tx_id }),
                ),
                Status::Resolved => Err(
                    AccountError::Transaction(TransactionError::AlreadyResolved { tx_id }),
                ),
                Status::ChargedBack => Err(
                    AccountError::Transaction(TransactionError::AlreadyChargedBack { tx_id }),
                ),
            },
            _ => Err(
                AccountError::Transaction(
                    TransactionError::InvalidResolutionTarget { tx_id, expected_kind: Kind::Deposit },
                ),
            ),
        }
    }
}

/// The outcome of resolving `tx_id`.
pub open spec fn resolve_outcome(bal: Balance, ledger: Map<u32, Entry>, tx_id: u32) -> Result<
    (Balance, Map<u32, Entry>),
    AccountError,
> {
    match disputed_amount_of(ledger, tx_id) {
        Ok(amount) => if bal.held.units >= amount.units {
            Ok(
                (
                    Balance::of(bal.total.units as int, bal.held.units - amount.units),
                    ledger.insert(tx_id, with_status(ledger[tx_id], Status::Resolved)),
                ),
            )
        } else {
            Err(insufficient_held(bal, amount))
        },
        Err(e) => Err(e),
    }
}

/// The outcome of charging back `tx_id` (the account is then locked).
pub open spec fn chargeback_outcome(bal: Balance, ledger: Map<u32, Entry>, tx_id: u32) -> Result<
    (Balance, Map<u32, Entry>),
    AccountError,
> {
    match disputed_amount_of(ledger, tx_id) {
        Ok(amount) => if bal.held.units >= amount.units {
            Ok(
                (
                    Balance::of(bal.total.units - amount.units, bal.held.units - amount.units),
                    ledger.insert(tx_id, with_status(ledger[tx_id], Status::ChargedBack)),
                ),
            )
        } else {
            Err(insufficient_held(bal, amount))
        },
        Err(e) => Err(e),
    }
}

/// The state of an account: whether it is locked, its balance, and its ledger.
pub type AccountState = (bool, Balance, Map<u32, Entry>);

/// What applying `ev` to an account in state `s` leads to: the next state, or the error,
/// in which case the state stays as it was.
pub open spec fn transition(s: AccountState, ev: Event) -> Result<AccountState, AccountError> {
    let (locked, bal, ledger) = s;
    if locked {
        Err(AccountError::AccountLocked)
    } else {
        match ev {
            Event::Deposit { tx_id, amount, .. } => if bal.total.units + amount.units
                <= u128::MAX {
                Ok(
                    (
                        false,
                        Balance::of(bal.total.units + amount.units, bal.held.units as int),
                        ledger.insert(tx_id, Entry { tx: ev, kind: Kind::Deposit, status: Status::Normal }),
                    ),
                )
            } else {
                Err(AccountError::TotalOverflow { total: bal.total, amount })
            },
            Event::Withdrawal { tx_id, amount, .. } => if bal.available() >= amount.units {
                Ok(
                    (
                        false,
                        Balance::of(bal.total.units - amount.units, bal.held.units as int),
                        ledger.insert(
                            tx_id,
                            Entry { tx: ev, kind: Kind::Withdrawal, status: Status::Normal },
                        ),
                    ),
                )
            } else {
                Err(insufficient_available(bal, amount))
            },
            Event::Dispute { disputed_tx_id, .. } => match dispute_outcome(
                bal,
                ledger,
                disputed_tx_id,
            ) {
                Ok((b, l)) => Ok((false, b, l)),
                Err(e) => Err(e),
            },
            Event::Resolve { disputed_tx_id, .. } => match resolve_outcome(
                bal,
                ledger,
                disputed_tx_id,
            ) {
                Ok((b, l)) => Ok((false, b, l)),
                Err(e) => Err(e),
            },
            Event::Chargeback { disputed_tx_id, .. } => match chargeback_outcome(
                bal,
                ledger,
                disputed_tx_id,
            ) {
                Ok((b, l)) => Ok((true, b, l)),
                Err(e) => Err(e),
            },
        }
    }
}

/// The state of an account that was just opened.
pub open spec fn fresh_state() -> AccountState {
    (false, Balance::of(0, 0), empty_ledger())
}

impl Account {
    /// The ledger entries, by transaction id.
    pub open spec fn ledger(&self) -> Map<u32, Entry> {
        ledger_entries(self.txs)
    }

    pub open spec fn state(&self) -> AccountState {
        (self.is_locked, self.balance, self.ledger())
    }

    pub open spec fn wf(&self) -> bool {
        self.balance.wf()
    }

    /// A new, unlocked account with an empty balance and ledger.
    pub fn new(id: u16) -> (r: Account)
        ensures
            r.id == id,
            r.state() == fresh_state(),
            r.wf(),
    {
        let r = Account { id, balance: Balance::new(), is_locked: false, txs: ledger_new() };
        assert(r.balance == Balance::of(0, 0));
        r
    }

    /// Applies one event; on failure nothing changes.
    pub fn apply_event(&mut self, tx: Event) -> (r: Result<(), AccountError>)
        requires
            old(self).wf(),
        ensures
            final(self).wf(),
            final(self).id == old(self).id,
            match transition(old(self).state(), tx) {
                Ok(s) => r is Ok && final(self).state() == s,
                Err(e) => r == Err::<(), AccountError>(e) && final(self).state() == old(self).state(),
            },
    {
        if self.is_locked {
            return Err(AccountError::AccountLocked);
        }
        match tx {
            Event::Deposit { amount, tx_id, .. } => {
                if self.balance.total.units > u128::MAX - amount.units {
                    return Err(AccountError::TotalOverflow { total: self.balance.total, amount });
                }
                self.deposit(amount);
                ledger_insert(&mut self.txs, tx_id, Entry::new(Kind::Deposit, tx));
            },
            Event::Withdrawal { amount, tx_id, .. } => {
                match self.withdraw(amount) {
                    Ok(()) => {},
                    Err(e) => {
                        return Err(AccountError::Balance(e));
                    },
                }
                ledger_insert(&mut self.txs, tx_id, Entry::new(Kind::Withdrawal, tx));
            },
            Event::Dispute { disputed_tx_id, .. } => {
                self.dispute(disputed_tx_id)?;
            },
            Event::Resolve { disputed_tx_id, .. } => {
                self.resolve(disputed_tx_id)?;
            },
            Event::Chargeback { disputed_tx_id, .. } => {
                self.chargeback(disputed_tx_id)?;
            },
        }
        Ok(())
    }

    fn deposit(&mut self, amount: Amount)
        requires
            old(self).balance.total.units + amount.units <= u128::MAX,
        ensures
            final(self).balance.total.units == old(self).balance.total.units + amount.units,
            final(self).balance.held == old(self).balance.held,
            final(self).id == old(self).id,
            final(self).is_locked == old(self).is_locked,
            final(self).txs == old(self).txs,
    {
        self.balance.credit(amount);
    }

    fn withdraw(&mut self, amount: Amount) -> (r: Result<(), BalanceError>)
        requires
            old(self).wf(),
        ensures
            final(self).wf(),
            final(self).id == old(self).id,
            final(self).is_locked == old(self).is_locked,
            final(self).txs == old(self).txs,
            old(self).balance.available() >= amount.units ==> r is Ok && final(self).balance
                == Balance::of(
                old(self).balance.total.units - amount.units,
                old(self).balance.held.units as int,
            ),
            old(self).balance.available() < amount.units ==> final(self).balance == old(
                self,
            ).balance && r == Err::<(), BalanceError>(
                BalanceError::InsufficientAvailableFunds {
                    available: Amount { units: old(self).balance.available() as u128 },
                    required: amount,
                },
            ),
    {
        self.balance.debit(amount)
    }

    fn dispute(&mut self, tx_id: u32) -> (r: Result<(), AccountError>)
        requires
            old(self).wf(),
        ensures
            final(self).wf(),
            final(self).id == old(self).id,
            final(self).is_locked == old(self).is_locked,
            match dispute_outcome(old(self).balance, old(self).ledger(), tx_id) {
                Ok((b, l)) => r is Ok && final(self).balance == b && final(self).ledger() == l,
                Err(e) => r == Err::<(), AccountError>(e) && final(self).balance == old(
                    self,
                ).balance && final(self).ledger() == old(self).ledger(),
            },
    {
        match ledger_get(&self.txs, tx_id) {
            Some(entry) => match entry.tx {
                Event::Deposit { amount, .. } => match entry.status {
                    Status::Normal => {
                        match self.balance.hold(amount) {
                            Ok(()) => {},
                            Err(e) => {
                                return Err(AccountError::Balance(e));
                            },
                        }
                        ledger_insert(
                            &mut self.txs,
                            tx_id,
                            Entry { tx: entry.tx, kind: entry.kind, status: Status::Disputed },
                        );
                        Ok(())
                    },
                    Status::Disputed => Err(
                        AccountError::Transaction(TransactionError::AlreadyDisputed { tx_id }),
                    ),
                    Status::Resolved => Err(
                        AccountError::Transaction(TransactionError::AlreadyResolved { tx_id }),
                    ),
                    Status::ChargedBack => Err(
                        AccountError::Transaction(TransactionError::AlreadyChargedBack { tx_id }),
                    ),
                },
                _ => Err(
                    AccountError::Transaction(
                        TransactionError::InvalidResolutionTarget {
                            tx_id,
                            expected_kind: Kind::Deposit,
                        },
                    ),
                ),
            },
            None => Err(AccountError::Transaction(TransactionError::NotFound { tx_id })),
        }
    }

    /// The disputed deposit `tx_id` and its amount, or why it cannot be settled.
    fn disputed_entry(&self, tx_id: u32) -> (r: Result<(Entry, Amount), AccountError>)
        ensures
            match disputed_amount_of(self.ledger(), tx_id) {
                Ok(a) => r == Ok::<(Entry, Amount), AccountError>((self.ledger()[tx_id], a)),
                Err(e) => r == Err::<(Entry, Amount), AccountError>(e),
            },
    {
        match ledger_get(&self.txs, tx_id) {
            Some(entry) => match entry.tx {
                Event::Deposit { amount, .. } => match entry.status {
                    Status::Disputed => Ok((entry, amount)),
                    Status::Normal => Err(
                        AccountError::Transaction(TransactionError::NotDisputed { tx_id }),
                    ),
                    Status::Resolved => Err(
                        AccountError::Transaction(TransactionError::AlreadyResolved { tx_id }),
                    ),
                    Status::ChargedBack => Err(
                        AccountError::Transaction(TransactionError::AlreadyChargedBack { tx_id }),
                    ),
                },
                _ => Err(
                    AccountError::Transaction(
                        TransactionError::InvalidResolutionTarget {
                            tx_id,
                            expected_kind: Kind::Deposit,
                        },
                    ),
                ),
            },
            None => Err(AccountError::Transaction(TransactionError::NotFound { tx_id })),
        }
    }

    fn resolve(&mut self, tx_id: u32) -> (r: Result<(), AccountError>)
        requires
            old(self).wf(),
        ensures
            final(self).wf(),
            final(self).id == old(self).id,
            final(self).is_locked == old(self).is_locked,
            match resolve_outcome(old(self).balance, old(self).ledger(), tx_id) {
                Ok((b, l)) => r is Ok && final(self).balance == b && final(self).ledger() == l,
                Err(e) => r == Err::<(), AccountError>(e) && final(self).balance == old(
                    self,
                ).balance && final(self).ledger() == old(self).ledger(),
            },
    {
        let (entry, amount) = self.disputed_entry(tx_id)?;
        match self.balance.release_held(amount) {
            Ok(()) => {},
            Err(e) => {
                return Err(AccountError::Balance(e));
            },
        }
        ledger_insert(
            &mut self.txs,
            tx_id,
            Entry { tx: entry.tx, kind: entry.kind, status: Status::Resolved },
        );
        Ok(())
    }

    fn chargeback(&mut self, tx_id: u32) -> (r: Result<(), AccountError>)
        requires
            old(self).wf(),
        ensures
            final(self).wf(),
            final(self).id == old(self).id,
            match chargeback_outcome(old(self).balance, old(self).ledger(), tx_id) {
                Ok((b, l)) => r is Ok && final(self).is_locked && final(self).balance == b
                    && final(self).ledger() == l,
                Err(e) => r == Err::<(), AccountError>(e) && final(self).is_locked == old(
                    self,
                ).is_locked && final(self).balance == old(self).balance && final(self).ledger()
                    == old(self).ledger(),
            },
    {
        let (entry, amount) = self.disputed_entry(tx_id)?;
        match self.balance.burn_held(amount) {
            Ok(()) => {},
            Err(e) => {
                return Err(AccountError::Balance(e));
            },
        }
        ledger_insert(
            &mut self.txs,
            tx_id,
            Entry { tx: entry.tx, kind: entry.kind, status: Status::ChargedBack },
        );
        self.is_locked = true;
        Ok(())
    }
}

} // verus!
