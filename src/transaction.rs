use vstd::prelude::*;
use crate::amount::Amount;

verus! {

/// Where a ledger entry stands in the dispute lifecycle.
#[derive(Clone, Copy, Debug, PartialEq, Eq, Structural)]
pub enum Status {
    Normal,
    Disputed,
    Resolved,
    ChargedBack,
}

/// The kind of movement a ledger entry records.
#[derive(Clone, Copy, Debug, PartialEq, Eq, Structural)]
pub enum Kind {
    Deposit,
    Withdrawal,
}

/// A typed event addressed to one client's account.
#[derive(Clone, Copy, Debug, PartialEq, Eq, Structural)]
pub enum Event {
    Deposit { tx_id: u32, client_id: u16, amount: Amount },
    Withdrawal { tx_id: u32, client_id: u16, amount: Amount },
    Dispute { client_id: u16, disputed_tx_id: u32 },
    Resolve { client_id: u16, disputed_tx_id: u32 },
    Chargeback { client_id: u16, disputed_tx_id: u32 },
}

impl Event {
    /// The client whose account the event is addressed to.
    pub open spec fn client(self) -> u16 {
        match self {
            Event::Deposit { client_id, .. } => client_id,
            Event::Withdrawal { client_id, .. } => client_id,
            Event::Dispute { client_id, .. } => client_id,
            Event::Resolve { client_id, .. } => client_id,
            Event::Chargeback { client_id, .. } => client_id,
        }
    }
}

/// The record an account keeps of one deposit or withdrawal.
#[derive(Clone, Copy, Debug, PartialEq, Eq, Structural)]
pub struct Entry {
    pub tx: Event,
    pub kind: Kind,
    pub status: Status,
}

impl Entry {
    /// A fresh entry for `tx`, not yet disputed.
    pub fn new(kind: Kind, tx: Event) -> (r: Entry)
        ensures
            r == (Entry { tx, kind, status: Status::Normal }),
    {
        Entry { tx, kind, status: Status::Normal }
    }
}

} // verus!
