use vstd::prelude::*;

use crate::text::{decimal, push_decimal, text};
use crate::world::{GameState, Ship};

verus! {

/// `b` is ship `a` with `delta` more cash and nothing else changed.
pub open spec fn ship_paid(a: Ship, b: Ship, delta: int) -> bool {
    &&& b.cash == a.cash + delta
    &&& b.cargo == a.cargo
    &&& b.net_tonnage == a.net_tonnage
    &&& b.id == a.id
    &&& b.name == a.name
    &&& b.location == a.location
    &&& b.destination == a.destination
    &&& b.eta == a.eta
    &&& b.delay_weeks == a.delay_weeks
}

impl GameState {
    /// Whether interest is due: time has passed since the last accrual and
    /// the balance is positive.
    pub open spec fn interest_due(&self) -> bool {
        self.date.day_number() > self.bank_last_date.day_number() && self.bank_balance > 0
    }

    /// The balance after accruing `interest` up to today.
    pub open spec fn balance_after_interest(&self, interest: int) -> int {
        if self.interest_due() {
            self.bank_balance + interest
        } else {
            self.bank_balance as int
        }
    }

    /// `b` is `a` with the bank balance set to `balance`, the accrual date
    /// moved to today, and ship `ship` holding `delta` more cash.
    pub open spec fn banked(a: &GameState, b: &GameState, ship: int, balance: int, delta: int) -> bool {
        &&& b.bank_balance == balance
        &&& b.bank_last_date == a.date
        &&& b.systems == a.systems
        &&& b.ships@.len() == a.ships@.len()
        &&& forall|i: int| 0 <= i < a.ships@.len() && i != ship ==> #[trigger] b.ships@[i] == a.ships@[i]
        &&& ship_paid(a.ships@[ship], b.ships@[ship], delta)
        &&& b.date == a.date
        &&& b.selected_system == a.selected_system
        &&& b.selected_ship == a.selected_ship
        &&& b.selected_good == a.selected_good
        &&& b.max_tonnage == a.max_tonnage
        &&& b.development_increment_quarters == a.development_increment_quarters
        &&& b.max_bid_rounds == a.max_bid_rounds
        &&& b.rng == a.rng
    }

    /// Credits the bank with `interest`, the interest earned since the last
    /// accrual (computed by the caller at 5% a year on the balance), when time
    /// has passed and the balance is positive; either way the accrual date
    /// becomes today.
    pub fn accrue_interest(&mut self, interest: i64)
        requires
            old(self).interest_due() ==> old(self).bank_balance + interest <= i64::MAX,
        ensures
            final(self).bank_balance == old(self).balance_after_interest(interest as int),
            final(self).bank_last_date == old(self).date,
            final(self).ships == old(self).ships,
            final(self).systems == old(self).systems,
            final(self).date == old(self).date,
            final(self).selected_system == old(self).selected_system,
            final(self).selected_ship == old(self).selected_ship,
            final(self).selected_good == old(self).selected_good,
            final(self).max_tonnage == old(self).max_tonnage,
            final(self).development_increment_quarters == old(self).development_increment_quarters,
            final(self).max_bid_rounds == old(self).max_bid_rounds,
            final(self).rng == old(self).rng,
    {
        let now = self.date;
        let elapsed = self.bank_last_date.days_until(now);
        if elapsed > 0 && self.bank_balance > 0 {
            self.bank_balance = self.bank_balance + interest;
        }
        self.bank_last_date = now;
    }

    /// Why a deposit is refused, in the game's words.
    pub open spec fn deposit_refusal(&self, ship_id: int, amount: int) -> Option<Seq<char>> {
        if amount <= 0 {
            Some("Amount must be positive"@)
        } else if ship_id >= self.ships@.len() {
            Some("Invalid ship"@)
        } else if !self.systems@[self.ships@[ship_id].location as int].class.banks() {
            Some("No bank at this system"@)
        } else if self.ships@[ship_id].cash < amount {
            Some("Not enough cash on ship"@)
        } else {
            None
        }
    }

    /// Why a withdrawal is refused before any interest is reckoned.
    pub open spec fn withdraw_precheck(&self, ship_id: int, amount: int) -> Option<Seq<char>> {
        if amount <= 0 {
            Some("Amount must be positive"@)
        } else if ship_id >= self.ships@.len() {
            Some("Invalid ship"@)
        } else if !self.systems@[self.ships@[ship_id].location as int].class.banks() {
            Some("No bank at this system"@)
        } else {
            None
        }
    }

    /// Moves `amount` credits from ship `ship_id` into the bank, after
    /// accruing `interest` (see `accrue_interest`). Only possible at a system
    /// with a bank and with enough cash aboard; a refused deposit changes
    /// nothing.
    pub fn deposit(&mut self, ship_id: usize, amount: i64, interest: i64) -> (r: Result<String, String>)
        requires
            old(self).wf(),
            old(self).deposit_refusal(ship_id as int, amount as int) is None ==>
                old(self).balance_after_interest(interest as int) + amount <= i64::MAX
                && (old(self).interest_due() ==> old(self).bank_balance + interest <= i64::MAX),
        ensures
            match r {
                Ok(msg) => {
                    &&& old(self).deposit_refusal(ship_id as int, amount as int) is None
                    &&& GameState::banked(
                        old(self),
                        final(self),
                        ship_id as int,
                        old(self).balance_after_interest(interest as int) + amount,
                        -amount,
                    )
                    &&& msg@ == "Deposited $"@ + decimal(amount as int)
                },
                Err(e) => {
                    &&& old(self).deposit_refusal(ship_id as int, amount as int) == Some(e@)
                    &&& *final(self) == *old(self)
                },
            },
    {
        if amount <= 0 {
            return Err(text("Amount must be positive"));
        }
        if ship_id >= self.ships.len() {
            return Err(text("Invalid ship"));
        }
        let loc = self.ships[ship_id].location;
        assert(self.ships@[ship_id as int].location < self.systems@.len());
        if !GameState::has_bank(&self.systems[loc]) {
            return Err(text("No bank at this system"));
        }
        if self.ships[ship_id].cash < amount {
            return Err(text("Not enough cash on ship"));
        }
        self.accrue_interest(interest);
        self.ships[ship_id].cash = self.ships[ship_id].cash - amount;
        self.bank_balance = self.bank_balance + amount;
        let mut msg = text("Deposited $");
        push_decimal(&mut msg, amount);
        Ok(msg)
    }

    /// Moves `amount` credits from the bank to ship `ship_id`, after
    /// accruing `interest`. Only possible at a system with a bank. When the
    /// balance, interest included, is short, the withdrawal is refused but
    /// the interest stays credited.
    pub fn withdraw(&mut self, ship_id: usize, amount: i64, interest: i64) -> (r: Result<String, String>)
        requires
            old(self).wf(),
            old(self).withdraw_precheck(ship_id as int, amount as int) is None ==> {
                &&& (old(self).interest_due() ==> old(self).bank_balance + interest <= i64::MAX)
                &&& old(self).ships@[ship_id as int].cash + amount <= i64::MAX
            },
        ensures
            match r {
                Ok(msg) => {
                    &&& old(self).withdraw_precheck(ship_id as int, amount as int) is None
                    &&& old(self).balance_after_interest(interest as int) >= amount
                    &&& GameState::banked(
                        old(self),
                        final(self),
                        ship_id as int,
                        old(self).balance_after_interest(interest as int) - amount,
                        amount as int,
                    )
                    &&& msg@ == "Withdrew $"@ + decimal(amount as int)
                },
                Err(e) => match old(self).withdraw_precheck(ship_id as int, amount as int) {
                    Some(reason) => e@ == reason && *final(self) == *old(self),
                    None => {
                        &&& old(self).balance_after_interest(interest as int) < amount
                        &&& e@ == "Not enough in bank"@
                        &&& GameState::banked(
                            old(self),
                            final(self),
                            ship_id as int,
                            old(self).balance_after_interest(interest as int),
                            0,
                        )
                    },
                },
            },
    {
        if amount <= 0 {
            return Err(text("Amount must be positive"));
        }
        if ship_id >= self.ships.len() {
            return Err(text("Invalid ship"));
        }
        let loc = self.ships[ship_id].location;
        assert(self.ships@[ship_id as int].location < self.systems@.len());
        if !GameState::has_bank(&self.systems[loc]) {
            return Err(text("No bank at this system"));
        }
        self.accrue_interest(interest);
        if self.bank_balance < amount {
            return Err(text("Not enough in bank"));
        }
        self.bank_balance = self.bank_balance - amount;
        self.ships[ship_id].cash = self.ships[ship_id].cash + amount;
        let mut msg = text("Withdrew $");
        push_decimal(&mut msg, amount);
        Ok(msg)
    }
}

} // verus!
