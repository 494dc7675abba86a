use vstd::prelude::*;
use crate::amount::Amount;
use crate::error::BalanceError;

verus! {

/// The funds of one account: everything it holds, and the part of that which is held
/// against open disputes.
#[derive(Clone, Copy, Debug, PartialEq, Eq, Structural)]
pub struct Balance {
    pub total: Amount,
    pub held: Amount,
}

impl Balance {
    /// Held funds never exceed the total.
    pub open spec fn wf(self) -> bool {
        self.held.units <= self.total.units
    }

    /// Funds free to be withdrawn or held.
    pub open spec fn available(self) -> int {
        self.total.units - self.held.units
    }

    /// The balance with the given total and held units.
    pub open spec fn of(total: int, held: int) -> Balance {
        Balance { total: Amount { units: total as u128 }, held: Amount { units: held as u128 } }
    }

    /// An empty balance.
    pub fn new() -> (r: Balance)
        ensures
            r.total.units == 0,
            r.held.units == 0,
            r.wf(),
    {
        Balance { total: Amount::zero(), held: Amount::zero() }
    }

    pub fn get_available(&self) -> (r: Amount)
        requires
            self.wf(),
        ensures
            r.units == self.available(),
    {
        Amount { units: self.total.units - self.held.units }
    }

    pub fn has_enough_available(&self, amount: Amount) -> (r: bool)
        requires
            self.wf(),
        ensures
            r == (self.available() >= amount.units),
    {
        self.get_available().units >= amount.units
    }

    pub fn has_enough_held(&self, amount: Amount) -> (r: bool)
        ensures
            r == (self.held.units >= amount.units),
    {
        self.held.units >= amount.units
    }

    /// Adds `amount` to the total.
    pub fn credit(&mut self, amount: Amount)
        requires
            old(self).total.units + amount.units <= u128::MAX,
        ensures
            final(self).total.units == old(self).total.units + amount.units,
            final(self).held == old(self).held,
            old(self).wf() ==> final(self).wf(),
    {
        self.total = Amount { units: self.total.units + amount.units };
    }

    /// Takes `amount` out of the total, when the available funds cover it.
    pub fn debit(&mut self, amount: Amount) -> (r: Result<(), BalanceError>)
        requires
            old(self).wf(),
        ensures
            final(self).wf(),
            old(self).available() >= amount.units ==> r is Ok && *final(self) == Balance::of(
                old(self).total.units - amount.units,
                old(self).held.units as int,
            ),
            old(self).available() < amount.units ==> *final(self) == *old(self) && r == Err::<
                (),
                BalanceError,
            >(
                BalanceError::InsufficientAvailableFunds {
                    available: Amount { units: old(self).available() as u128 },
                    required: amount,
                },
            ),
    {
        if !self.has_enough_available(amount) {
            return Err(
                BalanceError::InsufficientAvailableFunds {
                    available: self.get_available(),
                    required: amount,
                },
            );
        }
        self.total = Amount { units: self.total.units - amount.units };
        Ok(())
    }

    /// Moves `amount` from the available funds into the held funds.
    pub fn hold(&mut self, amount: Amount) -> (r: Result<(), BalanceError>)
        requires
            old(self).wf(),
        ensures
            final(self).wf(),
            old(self).available() >= amount.units ==> r is Ok && *final(self) == Balance::of(
                old(self).total.units as int,
                old(self).held.units + amount.units,
            ),
            old(self).available() < amount.units ==> *final(self) == *old(self) && r == Err::<
                (),
                BalanceError,
            >(
                BalanceError::InsufficientAvailableFunds {
                    available: Amount { units: old(self).available() as u128 },
                    required: amount,
                },
            ),
    {
        if !self.has_enough_available(amount) {
            return Err(
                BalanceError::InsufficientAvailableFunds {
                    available: self.get_available(),
                    required: amount,
                },
            );
        }
        self.held = Amount { units: self.held.units + amount.units };
        Ok(())
    }

    /// Removes `amount` from both the held funds and the total.
    pub fn burn_held(&mut self, amount: Amount) -> (r: Result<(), BalanceError>)
        requires
            old(self).wf(),
        ensures
            final(self).wf(),
            old(self).held.units >= amount.units ==> r is Ok && *final(self) == Balance::of(
                old(self).total.units - amount.units,
                old(self).held.units - amount.units,
            ),
            old(self).held.units < amount.units ==> *final(self) == *old(self) && r == Err::<
                (),
                BalanceError,
            >(BalanceError::InsufficientHeldFunds { held: old(self).held, required: amount }),
    {
        if !self.has_enough_held(amount) {
            return Err(BalanceError::InsufficientHeldFunds { held: self.held, required: amount });
        }
        self.held = Amount { units: self.held.units - amount.units };
        self.total = Amount { units: self.total.units - amount.units };
        Ok(())
    }

    /// Moves `amount` from the held funds back into the available funds.
    pub fn release_held(&mut self, amount: Amount) -> (r: Result<(), BalanceError>)
        requires
            old(self).wf(),
        ensures
            final(self).wf(),
            old(self).held.units >= amount.units ==> r is Ok && *final(self) == Balance::of(
                old(self).total.units as int,
                old(self).held.units - amount.units,
            ),
            old(self).held.units < amount.units ==> *final(self) == *old(self) && r == Err::<
                (),
                BalanceError,
            >(BalanceError::InsufficientHeldFunds { held: old(self).held, required: amount }),
    {
        if !self.has_enough_held(amount) {
            return Err(BalanceError::InsufficientHeldFunds { held: self.held, required: amount });
        }
        self.held = Amount { units: self.held.units - amount.units };
        Ok(())
    }
}

} // verus!
