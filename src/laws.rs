use vstd::prelude::*;
use crate::account::{fresh_state, transition, AccountState};
use crate::balance::Balance;
use crate::error::{AccountError, TransactionError};
use crate::processor::Processor;
use crate::transaction::{Event, Kind, Status};

verus! {

/// The state reached from `s` by applying `evs` in order, where a rejected event
/// leaves the state as it was.
pub open spec fn run(s: AccountState, evs: Seq<Event>) -> AccountState
    decreases evs.len(),
{
    if evs.len() == 0 {
        s
    } else {
        let prev = run(s, evs.drop_last());
        match transition(prev, evs.last()) {
            Ok(t) => t,
            Err(_) => prev,
        }
    }
}

/// Whether an event moves money in or out (a deposit or a withdrawal).
pub open spec fn is_movement(ev: Event) -> bool {
    ev is Deposit || ev is Withdrawal
}

/// The sum of the deposits in `evs` that a fresh account accepted.
pub open spec fn credited(evs: Seq<Event>) -> int
    decreases evs.len(),
{
    if evs.len() == 0 {
        0
    } else {
        let prev = run(fresh_state(), evs.drop_last());
        credited(evs.drop_last()) + match evs.last() {
            Event::Deposit { amount, .. } => if transition(prev, evs.last()) is Ok {
                amount.units as int
            } else {
                0
            },
            _ => 0,
        }
    }
}

/// The sum of the withdrawals in `evs` that a fresh account accepted.
pub open spec fn debited(evs: Seq<Event>) -> int
    decreases evs.len(),
{
    if evs.len() == 0 {
        0
    } else {
        let prev = run(fresh_state(), evs.drop_last());
        debited(evs.drop_last()) + match evs.last() {
            Event::Withdrawal { amount, .. } => if transition(prev, evs.last()) is Ok {
                amount.units as int
            } else {
                0
            },
            _ => 0,
        }
    }
}

/// Every event keeps `0 <= held <= total`, so the available funds never go negative.
pub proof fn law_funds_invariant(s: AccountState, ev: Event)
    requires
        s.1.wf(),
    ensures
        match transition(s, ev) {
            Ok(t) => t.1.wf() && t.1.available() >= 0,
            Err(_) => true,
        },
{
}

/// The same holds along any sequence of events.
pub proof fn law_funds_invariant_run(s: AccountState, evs: Seq<Event>)
    requires
        s.1.wf(),
    ensures
        run(s, evs).1.wf(),
        run(s, evs).1.available() >= 0,
    decreases evs.len(),
{
    if evs.len() > 0 {
        law_funds_invariant_run(s, evs.drop_last());
        law_funds_invariant(run(s, evs.drop_last()), evs.last());
    }
}

/// Starting from a fresh account, deposits and withdrawals alone leave nothing held,
/// never lock the account, and leave a total equal to the accepted deposits minus the
/// accepted withdrawals.
pub proof fn law_fresh_account_total(evs: Seq<Event>)
    requires
        forall|i: int| 0 <= i < evs.len() ==> is_movement(#[trigger] evs[i]),
    ensures
        run(fresh_state(), evs).1.held.units == 0,
        !run(fresh_state(), evs).0,
        run(fresh_state(), evs).1.total.units == credited(evs) - debited(evs),
    decreases evs.len(),
{
    if evs.len() > 0 {
        let init = evs.drop_last();
        assert forall|i: int| 0 <= i < init.len() implies is_movement(#[trigger] init[i]) by {
            assert(init[i] == evs[i]);
        }
        law_fresh_account_total(init);
        assert(is_movement(evs[evs.len() - 1]));
    }
}

/// A dispute succeeds exactly on a Normal deposit whose amount the available funds cover:
/// it then holds that amount, keeps the total, and marks the entry Disputed. Otherwise it
/// fails with the error that names the reason.
pub proof fn law_dispute(s: AccountState, client_id: u16, tx_id: u32)
    requires
        !s.0,
    ensures
        ({
            let r = transition(s, Event::Dispute { client_id, disputed_tx_id: tx_id });
            let (_, bal, ledger) = s;
            &&& !ledger.contains_key(tx_id) ==> r == Err::<AccountState, AccountError>(
                AccountError::Transaction(TransactionError::NotFound { tx_id }),
            )
            &&& ledger.contains_key(tx_id) && ledger[tx_id].tx is Withdrawal ==> r == Err::<
                AccountState,
                AccountError,
            >(
                AccountError::Transaction(
                    TransactionError::InvalidResolutionTarget { tx_id, expected_kind: Kind::Deposit },
                ),
            )
            &&& ledger.contains_key(tx_id) && ledger[tx_id].tx is Deposit
                && ledger[tx_id].status == Status::Disputed ==> r == Err::<
                AccountState,
                AccountError,
            >(AccountError::Transaction(TransactionError::AlreadyDisputed { tx_id }))
            &&& ledger.contains_key(tx_id) && ledger[tx_id].tx is Deposit
                && ledger[tx_id].status == Status::Resolved ==> r == Err::<
                AccountState,
                AccountError,
            >(AccountError::Transaction(TransactionError::AlreadyResolved { tx_id }))
            &&& ledger.contains_key(tx_id) && ledger[tx_id].tx is Deposit
                && ledger[tx_id].status == Status::ChargedBack ==> r == Err::<
                AccountState,
                AccountError,
            >(AccountError::Transaction(TransactionError::AlreadyChargedBack { tx_id }))
            &&& r is Ok <==> (ledger.contains_key(tx_id) && ledger[tx_id].tx is Deposit
                && ledger[tx_id].status == Status::Normal && bal.available()
                >= ledger[tx_id].tx->Deposit_amount.units)
            &&& r matches Ok(t) ==> {
                &&& !t.0
                &&& t.1.total == bal.total
                &&& t.1.held.units == bal.held.units + ledger[tx_id].tx->Deposit_amount.units
                &&& t.2[tx_id].status == Status::Disputed
                &&& t.2[tx_id].tx == ledger[tx_id].tx
            }
        }),
{
}

/// A resolve succeeds only on a Disputed deposit: the held funds drop by its amount, the
/// total stays, and the entry becomes Resolved, which is terminal: resolving, disputing or
/// charging it back afterwards fails.
pub proof fn law_resolve(s: AccountState, client_id: u16, tx_id: u32)
    requires
        !s.0,
    ensures
        ({
            let ev = Event::Resolve { client_id, disputed_tx_id: tx_id };
            let r = transition(s, ev);
            let (_, bal, ledger) = s;
            &&& r is Ok ==> ledger.contains_key(tx_id) && ledger[tx_id].tx is Deposit
                && ledger[tx_id].status == Status::Disputed
            &&& (ledger.contains_key(tx_id) && ledger[tx_id].tx is Deposit
                && ledger[tx_id].status == Status::Disputed && bal.held.units
                >= ledger[tx_id].tx->Deposit_amount.units) ==> r is Ok
            &&& r matches Ok(t) ==> {
                &&& !t.0
                &&& t.1.total == bal.total
                &&& t.1.held.units == bal.held.units - ledger[tx_id].tx->Deposit_amount.units
                &&& t.2[tx_id].status == Status::Resolved
                &&& transition(t, ev) == Err::<AccountState, AccountError>(
                    AccountError::Transaction(TransactionError::AlreadyResolved { tx_id }),
                )
                &&& transition(t, Event::Dispute { client_id, disputed_tx_id: tx_id }) == Err::<
                    AccountState,
                    AccountError,
                >(AccountError::Transaction(TransactionError::AlreadyResolved { tx_id }))
                &&& transition(t, Event::Chargeback { client_id, disputed_tx_id: tx_id })
                    == Err::<AccountState, AccountError>(
                    AccountError::Transaction(TransactionError::AlreadyResolved { tx_id }),
                )
            }
        }),
{
}

/// A chargeback succeeds only on a Disputed deposit: the held funds and the total both
/// drop by its amount, the entry becomes ChargedBack, and the account is locked, so that
/// every later event fails with `AccountLocked`.
pub proof fn law_chargeback(s: AccountState, client_id: u16, tx_id: u32, later: Event)
    requires
        !s.0,
        s.1.wf(),
    ensures
        ({
            let r = transition(s, Event::Chargeback { client_id, disputed_tx_id: tx_id });
            let (_, bal, ledger) = s;
            &&& r is Ok ==> ledger.contains_key(tx_id) && ledger[tx_id].tx is Deposit
                && ledger[tx_id].status == Status::Disputed
            &&& (ledger.contains_key(tx_id) && ledger[tx_id].tx is Deposit
                && ledger[tx_id].status == Status::Disputed && bal.held.units
                >= ledger[tx_id].tx->Deposit_amount.units) ==> r is Ok
            &&& r matches Ok(t) ==> {
                &&& t.0
                &&& t.1.total.units == bal.total.units - ledger[tx_id].tx->Deposit_amount.units
                &&& t.1.held.units == bal.held.units - ledger[tx_id].tx->Deposit_amount.units
                &&& t.2[tx_id].status == Status::ChargedBack
                &&& transition(t, later) == Err::<AccountState, AccountError>(
                    AccountError::AccountLocked,
                )
            }
        }),
{
}

/// A locked account stays locked whatever comes next.
pub proof fn law_lock_is_permanent(s: AccountState, evs: Seq<Event>)
    requires
        s.0,
    ensures
        run(s, evs) == s,
    decreases evs.len(),
{
    if evs.len() > 0 {
        law_lock_is_permanent(s, evs.drop_last());
    }
}

/// A client the processor has never seen reads as an empty, unlocked account.
pub proof fn law_unknown_client(p: Processor, client_id: u16)
    requires
        !p.table().contains_key(client_id),
    ensures
        p.balance_of(client_id) == Balance::of(0, 0),
        p.balance_of(client_id).total.units == 0,
        p.balance_of(client_id).held.units == 0,
        !p.locked_of(client_id),
{
}

} // verus!
