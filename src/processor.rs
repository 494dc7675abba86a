use vstd::prelude::*;
use dashmap::DashMap;
use crate::account::{fresh_state, transition, Account, AccountState};
use crate::amount::Amount;
use crate::balance::Balance;
use crate::error::ProcessError;
use crate::transaction::Event;

verus! {

/// One record of the event stream, before its type tag is decoded.
#[derive(Debug)]
pub struct InputEvent {
    pub typ: String,
    pub client_id: u16,
    pub tx_id: u32,
    pub amount: Option<Amount>,
}

/// The event a record stands for, or `None` for an unknown type tag. A missing amount
/// counts as zero.
pub open spec fn decoded(input: InputEvent) -> Option<Event> {
    let amount = match input.amount {
        Some(a) => a,
        None => Amount { units: 0 },
    };
    let client_id = input.client_id;
    let tx_id = input.tx_id;
    if input.typ@ == "deposit"@ {
        Some(Event::Deposit { tx_id, client_id, amount })
    } else if input.typ@ == "withdrawal"@ {
        Some(Event::Withdrawal { tx_id, client_id, amount })
    } else if input.typ@ == "dispute"@ {
        Some(Event::Dispute { client_id, disputed_tx_id: tx_id })
    } else if input.typ@ == "resolve"@ {
        Some(Event::Resolve { client_id, disputed_tx_id: tx_id })
    } else if input.typ@ == "chargeback"@ {
        Some(Event::Chargeback { client_id, disputed_tx_id: tx_id })
    } else {
        None
    }
}

impl Event {
    /// Decodes the type tag of a record into a typed event.
    pub fn try_from(entry: InputEvent) -> (r: Result<Event, ProcessError>)
        ensures
            match decoded(entry) {
                Some(ev) => r == Ok::<Event, ProcessError>(ev),
                None => r == Err::<Event, ProcessError>(ProcessError::UnrecognizedEventType),
            },
    {
        let amount = match entry.amount {
            Some(a) => a,
            None => Amount::zero(),
        };
        if entry.typ == "deposit".to_owned() {
            Ok(Event::Deposit { tx_id: entry.tx_id, client_id: entry.client_id, amount })
        } else if entry.typ == "withdrawal".to_owned() {
            Ok(Event::Withdrawal { tx_id: entry.tx_id, client_id: entry.client_id, amount })
        } else if entry.typ == "dispute".to_owned() {
            Ok(Event::Dispute { disputed_tx_id: entry.tx_id, client_id: entry.client_id })
        } else if entry.typ == "resolve".to_owned() {
            Ok(Event::Resolve { disputed_tx_id: entry.tx_id, client_id: entry.client_id })
        } else if entry.typ == "chargeback".to_owned() {
            Ok(Event::Chargeback { disputed_tx_id: entry.tx_id, client_id: entry.client_id })
        } else {
            Err(ProcessError::UnrecognizedEventType)
        }
    }
}

/// The accounts a table holds, by client id.
pub uninterp spec fn account_table(m: DashMap<u16, Account>) -> Map<u16, Account>;

/// A table without accounts.
pub open spec fn empty_table() -> Map<u16, Account> {
    Map::empty()
}

/// Relies on `DashMap::new`: the new map holds no entry.
#[verifier::external_body]
fn table_new() -> (r: DashMap<u16, Account>)
    ensures
        account_table(r) == empty_table(),
{
    DashMap::new()
}

/// Relies on `DashMap::remove`: takes the account stored under `client_id` out of the map.
#[verifier::external_body]
fn table_remove(m: &mut DashMap<u16, Account>, client_id: u16) -> (r: Option<Account>)
    ensures
        account_table(*old(m)).contains_key(client_id) ==> r == Some(
            account_table(*old(m))[client_id],
        ),
        !account_table(*old(m)).contains_key(client_id) ==> r is None,
        account_table(*final(m)) == account_table(*old(m)).remove(client_id),
{
    m.remove(&client_id).map(|(_, a)| a)
}

/// Relies on `DashMap::insert`: stores `account` under `client_id`, replacing any earlier one.
#[verifier::external_body]
fn table_insert(m: &mut DashMap<u16, Account>, client_id: u16, account: Account)
    ensures
        account_table(*final(m)) == account_table(*old(m)).insert(client_id, account),
{
    m.insert(client_id, account);
}

/// Relies on `DashMap::get`: the balance of the account stored under `client_id`, if any.
#[verifier::external_body]
fn table_balance(m: &DashMap<u16, Account>, client_id: u16) -> (r: Option<Balance>)
    ensures
        account_table(*m).contains_key(client_id) ==> r == Some(
            account_table(*m)[client_id].balance,
        ),
        !account_table(*m).contains_key(client_id) ==> r is None,
{
    m.get(&client_id).map(|a| a.balance)
}

/// Relies on `DashMap::get`: whether the account stored under `client_id`, if any, is locked.
#[verifier::external_body]
fn table_locked(m: &DashMap<u16, Account>, client_id: u16) -> (r: Option<bool>)
    ensures
        account_table(*m).contains_key(client_id) ==> r == Some(
            account_table(*m)[client_id].is_locked,
        ),
        !account_table(*m).contains_key(client_id) ==> r is None,
{
    m.get(&client_id).map(|a| a.is_locked)
}

/// Relies on `DashMap::iter`, which visits every entry exactly once, in no stated order:
/// the id, balance and lock of each account.
#[verifier::external_body]
fn table_rows(m: &DashMap<u16, Account>) -> (r: Vec<(u16, Balance, bool)>)
    ensures
        forall|i: int|
            0 <= i < r@.len() ==> {
                &&& #[trigger] account_table(*m).contains_key(r@[i].0)
                &&& account_table(*m)[r@[i].0].balance == r@[i].1
                &&& account_table(*m)[r@[i].0].is_locked == r@[i].2
            },
        forall|k: u16|
            #[trigger] account_table(*m).contains_key(k) ==> exists|i: int|
                0 <= i < r@.len() && r@[i].0 == k,
        forall|i: int, j: int| 0 <= i < j < r@.len() ==> r@[i].0 != r@[j].0,
{
    m.iter().map(|a| (*a.key(), a.balance, a.is_locked)).collect()
}

/// One line of the final report on an account.
#[derive(Clone, Copy, Debug, PartialEq, Eq, Structural)]
pub struct AccountSnapshot {
    pub client: u16,
    pub available: Amount,
    pub held: Amount,
    pub total: Amount,
    pub locked: bool,
}

/// Routes events to per-client accounts, opening each account on first reference.
pub struct Processor {
    accounts: DashMap<u16, Account>,
}

/// The state of client `c`'s account in `table`; an account not opened yet counts as fresh.
pub open spec fn state_in(table: Map<u16, Account>, c: u16) -> AccountState {
    if table.contains_key(c) {
        table[c].state()
    } else {
        fresh_state()
    }
}

impl Processor {
    /// The accounts known so far, by client id.
    pub closed spec fn table(&self) -> Map<u16, Account> {
        account_table(self.accounts)
    }

    /// Every account sits under its own id and keeps its balance well-formed.
    pub open spec fn wf(&self) -> bool {
        forall|c: u16| #[trigger]
            self.table().contains_key(c) ==> self.table()[c].id == c && self.table()[c].wf()
    }

    /// The balance reported for client `c`.
    pub open spec fn balance_of(&self, c: u16) -> Balance {
        state_in(self.table(), c).1
    }

    /// Whether client `c` is reported as locked.
    pub open spec fn locked_of(&self, c: u16) -> bool {
        state_in(self.table(), c).0
    }

    /// A processor that knows no account yet.
    pub fn new() -> (r: Processor)
        ensures
            r.table() == empty_table(),
            r.wf(),
    {
        Processor { accounts: table_new() }
    }

    /// Decodes one record and applies it to its client's account, opening the account on
    /// first reference. Other accounts stay as they were.
    pub fn handle_event(&mut self, input: InputEvent) -> (r: Result<(), ProcessError>)
        requires
            old(self).wf(),
        ensures
            final(self).wf(),
            match decoded(input) {
                None => r == Err::<(), ProcessError>(ProcessError::UnrecognizedEventType)
                    && final(self).table() == old(self).table(),
                Some(ev) => {
                    let c = input.client_id;
                    let before = state_in(old(self).table(), c);
                    &&& final(self).table().contains_key(c)
                    &&& final(self).table().remove(c) == old(self).table().remove(c)
                    &&& match transition(before, ev) {
                        Ok(s) => r is Ok && final(self).table()[c].state() == s,
                        Err(e) => r == Err::<(), ProcessError>(ProcessError::Account(e))
                            && final(self).table()[c].state() == before,
                    }
                },
            },
    {
        let client_id = input.client_id;
        let event = Event::try_from(input)?;
        let mut account = match table_remove(&mut self.accounts, client_id) {
            Some(a) => a,
            None => Account::new(client_id),
        };
        let r = account.apply_event(event);
        table_insert(&mut self.accounts, client_id, account);
        proof {
            assert(self.table().remove(client_id) =~= old(self).table().remove(client_id));
        }
        match r {
            Ok(()) => Ok(()),
            Err(e) => Err(ProcessError::Account(e)),
        }
    }

    /// Whether client `client_id` is locked; `false` for an unknown client.
    pub fn is_account_locked(&self, client_id: u16) -> (r: bool)
        ensures
            r == self.locked_of(client_id),
    {
        match table_locked(&self.accounts, client_id) {
            Some(locked) => locked,
            None => false,
        }
    }

    /// The balance of client `client_id`; an empty balance for an unknown client.
    pub fn get_balance(&self, client_id: u16) -> (r: Balance)
        ensures
            r == self.balance_of(client_id),
    {
        match table_balance(&self.accounts, client_id) {
            Some(b) => b,
            None => Balance::new(),
        }
    }

    /// One snapshot line for every known account, in no particular order.
    pub fn snapshot(&self) -> (r: Vec<AccountSnapshot>)
        requires
            self.wf(),
        ensures
            forall|i: int|
                0 <= i < r@.len() ==> {
                    let s = #[trigger] r@[i];
                    &&& self.table().contains_key(s.client)
                    &&& s.total == self.table()[s.client].balance.total
                    &&& s.held == self.table()[s.client].balance.held
                    &&& s.available.units == self.table()[s.client].balance.available()
                    &&& s.locked == self.table()[s.client].is_locked
                },
            forall|c: u16| #[trigger]
                self.table().contains_key(c) ==> exists|i: int| 0 <= i < r@.len() && r@[i].client == c,
            forall|i: int, j: int| 0 <= i < j < r@.len() ==> r@[i].client != r@[j].client,
    {
        let rows = table_rows(&self.accounts);
        let mut out: Vec<AccountSnapshot> = Vec::new();
        let mut i: usize = 0;
        while i < rows.len()
            invariant
                self.wf(),
                i <= rows@.len(),
                out@.len() == i,
                forall|j: int|
                    0 <= j < rows@.len() ==> {
                        &&& #[trigger] self.table().contains_key(rows@[j].0)
                        &&& self.table()[rows@[j].0].balance == rows@[j].1
                        &&& self.table()[rows@[j].0].is_locked == rows@[j].2
                    },
                forall|j: int|
                    0 <= j < i ==> {
                        let s = #[trigger] out@[j];
                        &&& s.client == rows@[j].0
                        &&& s.total == rows@[j].1.total
                        &&& s.held == rows@[j].1.held
                        &&& s.available.units == rows@[j].1.available()
                        &&& s.locked == rows@[j].2
                    },
            decreases rows@.len() - i,
        {
            let (client, balance, locked) = rows[i];
            assert(self.table().contains_key(rows@[i as int].0));
            out.push(
                AccountSnapshot {
                    client,
                    available: balance.get_available(),
                    held: balance.held,
                    total: balance.total,
                    locked,
                },
            );
            i = i + 1;
        }
        proof {
            assert forall|c: u16| #[trigger]
                self.table().contains_key(c) implies exists|i: int|
                    0 <= i < out@.len() && out@[i].client == c by {
                let j = choose|j: int| 0 <= j < rows@.len() && rows@[j].0 == c;
                assert(out@[j].client == c);
            }
            assert forall|a: int, b: int| 0 <= a < b < out@.len() implies out@[a].client
                != out@[b].client by {
                assert(out@[a].client == rows@[a].0);
                assert(out@[b].client == rows@[b].0);
            }
        }
        out
    }
}

} // verus!
