use vstd::prelude::*;

use crate::goods::{GOODS_COUNT, HEAVY_GOODS, Merchandise};
use crate::text::{decimal, push_decimal, text};
use crate::world::{GameState, Ship, StarSystem, TradeKind};

verus! {

/// An open negotiation over one trade: who trades what, how much, the unit
/// price the system asked when it opened, and how many bidding rounds remain.
#[derive(Debug, Clone, Copy, PartialEq, Eq, Structural)]
pub struct TradeSession {
    pub kind: TradeKind,
    pub ship_id: usize,
    pub system_id: usize,
    pub good_idx: usize,
    pub qty: i32,
    pub opening_price: i32,
    pub round: usize,
    pub max_rounds: usize,
}

impl TradeSession {
    /// The same session one bidding round later.
    pub fn next_round(self) -> (r: TradeSession)
        requires
            self.round < usize::MAX,
        ensures
            r == (TradeSession { round: (self.round + 1) as usize, ..self }),
    {
        TradeSession { round: self.round + 1, ..self }
    }
}

/// The negotiation that the input bar is waiting on.
#[derive(Debug, Clone, Copy, PartialEq, Eq, Structural)]
pub struct TradeContext {
    pub session: TradeSession,
}

/// The context of a negotiation over `session`.
pub open spec fn context_of(session: TradeSession) -> TradeContext {
    TradeContext { session }
}

impl TradeContext {
    pub fn from_session(session: TradeSession) -> (r: TradeContext)
        ensures
            r == context_of(session),
    {
        TradeContext { session }
    }
}

/// Tons that `qty` units of the good at `good` add to a hold.
pub open spec fn tons_of(good: int, qty: int) -> int {
    if good < HEAVY_GOODS {
        qty
    } else {
        0
    }
}

/// `b` is ship `a` after taking `dq` units of good `g` on board (a negative
/// `dq` unloads) and `dcash` credits.
pub open spec fn ship_traded(a: Ship, b: Ship, g: int, dq: int, dcash: int) -> bool {
    &&& b.cargo@ == a.cargo@.update(g, (a.cargo@[g] + dq) as i32)
    &&& b.cash == a.cash + dcash
    &&& b.net_tonnage == a.net_tonnage + tons_of(g, dq)
    &&& b.id == a.id
    &&& b.name == a.name
    &&& b.location == a.location
    &&& b.destination == a.destination
    &&& b.eta == a.eta
    &&& b.delay_weeks == a.delay_weeks
}

/// `b` is system `a` with its stock of good `g` moved by `ds`.
pub open spec fn system_traded(a: StarSystem, b: StarSystem, g: int, ds: int) -> bool {
    &&& b.stock@ == a.stock@.update(g, (a.stock@[g] + ds) as i32)
    &&& b.id == a.id
    &&& b.name == a.name
    &&& b.class == a.class
    &&& b.dev_score_quarters == a.dev_score_quarters
    &&& b.coords == a.coords
    &&& b.last_update == a.last_update
    &&& b.prices == a.prices
}

/// The whole state `b` is `a` where only ship `ship` and system `system`
/// took part in a trade of `dq` units of good `g` for `dcash` credits
/// (the system's stock moves by `-dq`).
pub open spec fn traded(a: &GameState, b: &GameState, ship: int, system: int, g: int, dq: int, dcash: int) -> bool {
    &&& b.ships@.len() == a.ships@.len()
    &&& b.systems@.len() == a.systems@.len()
    &&& forall|i: int| 0 <= i < a.ships@.len() && i != ship ==> #[trigger] b.ships@[i] == a.ships@[i]
    &&& forall|i: int| 0 <= i < a.systems@.len() && i != system ==> #[trigger] b.systems@[i] == a.systems@[i]
    &&& ship_traded(a.ships@[ship], b.ships@[ship], g, dq, dcash)
    &&& system_traded(a.systems@[system], b.systems@[system], g, -dq)
    &&& a.same_settings(b)
}

/// The product of two `i32` values fits in an `i64`.
pub proof fn lemma_i32_product_fits(a: i32, b: i32)
    ensures
        i64::MIN <= a * b <= i64::MAX,
{
    assert(-2147483648 * 2147483647 <= a * b <= 2147483648 * 2147483648) by (nonlinear_arith)
        requires
            -2147483648 <= a <= 2147483647,
            -2147483648 <= b <= 2147483647,
    ;
}

impl GameState {
    /// Everything but the fleet and the galaxy is the same in both states.
    pub open spec fn same_settings(&self, other: &GameState) -> bool {
        &&& other.date == self.date
        &&& other.selected_system == self.selected_system
        &&& other.selected_ship == self.selected_ship
        &&& other.selected_good == self.selected_good
        &&& other.max_tonnage == self.max_tonnage
        &&& other.development_increment_quarters == self.development_increment_quarters
        &&& other.bank_balance == self.bank_balance
        &&& other.bank_last_date == self.bank_last_date
        &&& other.max_bid_rounds == self.max_bid_rounds
        &&& other.rng == self.rng
    }

    /// A trade request gets as far as looking at a particular good: the
    /// quantity is positive, ship and system exist and the ship is there.
    pub open spec fn trade_reaches_good(&self, ship_id: int, system_id: int, qty: int) -> bool {
        &&& qty > 0
        &&& 0 <= system_id < self.systems@.len()
        &&& 0 <= ship_id < self.ships@.len()
        &&& self.ships@[ship_id].location == system_id
    }

    /// Why a trade session cannot open, in the words the game uses, or
    /// `None` when it can.
    pub open spec fn session_refusal(
        &self,
        kind: TradeKind,
        ship_id: int,
        system_id: int,
        good_idx: int,
        qty: int,
    ) -> Option<Seq<char>> {
        if qty <= 0 {
            Some("Quantity must be positive"@)
        } else if system_id >= self.systems@.len() || ship_id >= self.ships@.len() {
            Some("Invalid selection"@)
        } else if self.ships@[ship_id].location != system_id {
            Some("Ship is not at this system"@)
        } else {
            let ship = self.ships@[ship_id];
            let system = self.systems@[system_id];
            match kind {
                TradeKind::BuyFromSystem => {
                    if system.stock@[good_idx] < qty {
                        Some("Not enough stock"@)
                    } else if good_idx < HEAVY_GOODS && ship.net_tonnage + qty > self.max_tonnage {
                        Some("Exceeds tonnage limit"@)
                    } else if system.prices@[good_idx] <= 0 {
                        Some("Item not for sale"@)
                    } else {
                        None
                    }
                },
                TradeKind::SellToSystem => {
                    if ship.cargo@[good_idx] < qty {
                        Some("Not enough cargo"@)
                    } else if system.stock@[good_idx] >= 0 {
                        Some("System not buying this good"@)
                    } else if qty > -system.stock@[good_idx] * 2 {
                        Some(
                            "They'll consider up to "@ + decimal(-system.stock@[good_idx] * 2)
                                + " units"@,
                        )
                    } else if system.prices@[good_idx] <= 0 {
                        Some("Price unavailable"@)
                    } else {
                        None
                    }
                },
            }
        }
    }

    /// The integer operations of a trade request stay in range (the game
    /// computes them in `i32`).
    pub open spec fn session_in_range(&self, kind: TradeKind, ship_id: int, system_id: int, good_idx: int, qty: int) -> bool {
        self.trade_reaches_good(ship_id, system_id, qty) ==> {
            &&& 0 <= good_idx < GOODS_COUNT
            &&& (kind == TradeKind::BuyFromSystem && self.systems@[system_id].stock@[good_idx] >= qty
                ==> self.ships@[ship_id].net_tonnage + qty <= i32::MAX)
            &&& (kind == TradeKind::SellToSystem && self.ships@[ship_id].cargo@[good_idx] >= qty
                && self.systems@[system_id].stock@[good_idx] < 0
                ==> -self.systems@[system_id].stock@[good_idx] * 2 <= i32::MAX)
        }
    }

    /// Opens a negotiation for `qty` units of good `good_idx` between ship
    /// `ship_id` and system `system_id`. The session starts at round 1 at the
    /// system's listed price; it is refused, with the game's message, when the
    /// quantity is not positive, the ship or system does not exist, the ship is
    /// elsewhere, or (buying) the system lacks stock, the hold lacks room or
    /// the good is not for sale, or (selling) the ship lacks the cargo, the
    /// system is not buying, wants fewer than that, or has no price.
    pub fn start_trade_session(
        &self,
        kind: TradeKind,
        ship_id: usize,
        system_id: usize,
        good_idx: usize,
        qty: i32,
    ) -> (r: Result<TradeSession, String>)
        requires
            self.session_in_range(kind, ship_id as int, system_id as int, good_idx as int, qty as int),
        ensures
            match r {
                Ok(s) => {
                    &&& self.session_refusal(kind, ship_id as int, system_id as int, good_idx as int, qty as int) is None
                    &&& s == TradeSession {
                        kind,
                        ship_id,
                        system_id,
                        good_idx,
                        qty,
                        opening_price: self.systems@[system_id as int].prices@[good_idx as int],
                        round: 1,
                        max_rounds: self.max_bid_rounds,
                    }
                },
                Err(e) => self.session_refusal(kind, ship_id as int, system_id as int, good_idx as int, qty as int)
                    == Some(e@),
            },
    {
        if qty <= 0 {
            return Err(text("Quantity must be positive"));
        }
        if system_id >= self.systems.len() || ship_id >= self.ships.len() {
            return Err(text("Invalid selection"));
        }
        if !self.ship_at_system(ship_id, system_id) {
            return Err(text("Ship is not at this system"));
        }
        let ship = &self.ships[ship_id];
        let system = &self.systems[system_id];
        match kind {
            TradeKind::BuyFromSystem => {
                if system.stock[good_idx] < qty {
                    return Err(text("Not enough stock"));
                }
                let mut weight = ship.net_tonnage;
                if good_idx < HEAVY_GOODS {
                    weight = weight + qty;
                    if weight > self.max_tonnage {
                        return Err(text("Exceeds tonnage limit"));
                    }
                }
                let price_each = system.prices[good_idx];
                if price_each <= 0 {
                    return Err(text("Item not for sale"));
                }
                Ok(TradeSession {
                    kind,
                    ship_id,
                    system_id,
                    good_idx,
                    qty,
                    opening_price: price_each,
                    round: 1,
                    max_rounds: self.max_bid_rounds,
                })
            },
            TradeKind::SellToSystem => {
                if ship.cargo[good_idx] < qty {
                    return Err(text("Not enough cargo"));
                }
                if system.stock[good_idx] >= 0 {
                    return Err(text("System not buying this good"));
                }
                let max_buy = -system.stock[good_idx] * 2;
                if qty > max_buy {
                    let mut msg = text("They'll consider up to ");
                    push_decimal(&mut msg, max_buy as i64);
                    msg.append(" units");
                    return Err(msg);
                }
                let price_each = system.prices[good_idx];
                if price_each <= 0 {
                    return Err(text("Price unavailable"));
                }
                Ok(TradeSession {
                    kind,
                    ship_id,
                    system_id,
                    good_idx,
                    qty,
                    opening_price: price_each,
                    round: 1,
                    max_rounds: self.max_bid_rounds,
                })
            },
        }
    }

    /// Why a settled purchase cannot go through, in the game's words.
    pub open spec fn purchase_refusal(&self, session: TradeSession, total: int) -> Option<Seq<char>> {
        let g = session.good_idx as int;
        if session.ship_id >= self.ships@.len() {
            Some("Bad ship"@)
        } else if session.system_id >= self.systems@.len() {
            Some("Bad system"@)
        } else if self.systems@[session.system_id as int].stock@[g] < session.qty {
            Some("Not enough stock"@)
        } else if g < HEAVY_GOODS && self.ships@[session.ship_id as int].net_tonnage + session.qty
            > self.max_tonnage {
            Some("Exceeds tonnage limit"@)
        } else if self.ships@[session.ship_id as int].cash < total {
            Some("Not enough cash"@)
        } else {
            None
        }
    }

    /// Why a settled sale cannot go through, in the game's words.
    pub open spec fn sale_refusal(&self, session: TradeSession) -> Option<Seq<char>> {
        let g = session.good_idx as int;
        if session.ship_id >= self.ships@.len() {
            Some("Bad ship"@)
        } else if session.system_id >= self.systems@.len() {
            Some("Bad system"@)
        } else if self.ships@[session.ship_id as int].cargo@[g] < session.qty {
            Some("Not enough cargo"@)
        } else if session.qty > -self.systems@[session.system_id as int].stock@[g] * 2 {
            Some(
                "They'll consider up to "@ + decimal(
                    -self.systems@[session.system_id as int].stock@[g] * 2,
                ) + " units"@,
            )
        } else {
            None
        }
    }

    /// Carries out a purchase agreed at `total` credits: the ship pays
    /// `total` and loads the goods, the system's stock drops. Refused, with
    /// nothing changed, when the ship or system is missing, the system lacks
    /// the stock, the hold lacks room or the ship lacks the cash. Returns the
    /// price paid.
    pub fn execute_buy(&mut self, session: &TradeSession, total: i32) -> (r: Result<i64, String>)
        requires
            session.ship_id < old(self).ships@.len() && session.system_id < old(self).systems@.len()
                ==> {
                let ship = old(self).ships@[session.ship_id as int];
                let system = old(self).systems@[session.system_id as int];
                let g = session.good_idx as int;
                &&& g < GOODS_COUNT
                &&& (g < HEAVY_GOODS ==> i32::MIN <= ship.net_tonnage + session.qty <= i32::MAX)
                &&& (old(self).purchase_refusal(*session, total as int) is None ==> {
                    &&& i32::MIN <= ship.cargo@[g] + session.qty <= i32::MAX
                    &&& i32::MIN <= system.stock@[g] - session.qty <= i32::MAX
                    &&& ship.cash - total <= i64::MAX
                })
            },
        ensures
            match r {
                Ok(cost) => {
                    &&& old(self).purchase_refusal(*session, total as int) is None
                    &&& cost == total
                    &&& traded(
                        old(self),
                        final(self),
                        session.ship_id as int,
                        session.system_id as int,
                        session.good_idx as int,
                        session.qty as int,
                        -total,
                    )
                },
                Err(e) => {
                    &&& old(self).purchase_refusal(*session, total as int) == Some(e@)
                    &&& *final(self) == *old(self)
                },
            },
    {
        if session.ship_id >= self.ships.len() {
            return Err(text("Bad ship"));
        }
        if session.system_id >= self.systems.len() {
            return Err(text("Bad system"));
        }
        let g = session.good_idx;
        let qty = session.qty;
        if self.systems[session.system_id].stock[g] < qty {
            return Err(text("Not enough stock"));
        }
        let mut weight = self.ships[session.ship_id].net_tonnage;
        if g < HEAVY_GOODS {
            weight = weight + qty;
            if weight > self.max_tonnage {
                return Err(text("Exceeds tonnage limit"));
            }
        }
        let cost = total as i64;
        if self.ships[session.ship_id].cash < cost {
            return Err(text("Not enough cash"));
        }
        let ghost before = *self;
        self.ships[session.ship_id].cash = self.ships[session.ship_id].cash - cost;
        self.ships[session.ship_id].cargo[g] = self.ships[session.ship_id].cargo[g] + qty;
        if g < HEAVY_GOODS {
            self.ships[session.ship_id].net_tonnage = weight;
        }
        self.systems[session.system_id].stock[g] = self.systems[session.system_id].stock[g] - qty;
        proof {
            assert(self.ships@[session.ship_id as int].cargo@ =~= before.ships@[session.ship_id as int].cargo@.update(g as int, (before.ships@[session.ship_id as int].cargo@[g as int] + qty) as i32));
            assert(self.systems@[session.system_id as int].stock@ =~= before.systems@[session.system_id as int].stock@.update(g as int, (before.systems@[session.system_id as int].stock@[g as int] - qty) as i32));
        }
        Ok(cost)
    }

    /// Carries out a sale agreed at `total` credits: the ship unloads the
    /// goods and receives `total`, the system's stock rises. Refused, with
    /// nothing changed, when the ship or system is missing, the ship lacks the
    /// cargo, or the system will not take that many units (it takes at most
    /// twice its shortfall). Returns the price received.
    pub fn execute_sell(&mut self, session: &TradeSession, total: i32) -> (r: Result<i64, String>)
        requires
            session.ship_id < old(self).ships@.len() && session.system_id < old(self).systems@.len()
                ==> {
                let ship = old(self).ships@[session.ship_id as int];
                let system = old(self).systems@[session.system_id as int];
                let g = session.good_idx as int;
                &&& g < GOODS_COUNT
                &&& (ship.cargo@[g] >= session.qty ==> i32::MIN <= -system.stock@[g] * 2 <= i32::MAX)
                &&& (old(self).sale_refusal(*session) is None ==> {
                    &&& i32::MIN <= ship.cargo@[g] - session.qty <= i32::MAX
                    &&& (g < HEAVY_GOODS ==> i32::MIN <= ship.net_tonnage - session.qty <= i32::MAX)
                    &&& i32::MIN <= system.stock@[g] + session.qty <= i32::MAX
                    &&& i64::MIN <= ship.cash + total <= i64::MAX
                })
            },
        ensures
            match r {
                Ok(revenue) => {
                    &&& old(self).sale_refusal(*session) is None
                    &&& revenue == total
                    &&& traded(
                        old(self),
                        final(self),
                        session.ship_id as int,
                        session.system_id as int,
                        session.good_idx as int,
                        -session.qty,
                        total as int,
                    )
                },
                Err(e) => {
                    &&& old(self).sale_refusal(*session) == Some(e@)
                    &&& *final(self) == *old(self)
                },
            },
    {
        if session.ship_id >= self.ships.len() {
            return Err(text("Bad ship"));
        }
        if session.system_id >= self.systems.len() {
            return Err(text("Bad system"));
        }
        let g = session.good_idx;
        let qty = session.qty;
        if self.ships[session.ship_id].cargo[g] < qty {
            return Err(text("Not enough cargo"));
        }
        let max_buy = -self.systems[session.system_id].stock[g] * 2;
        if qty > max_buy {
            let mut msg = text("They'll consider up to ");
            push_decimal(&mut msg, max_buy as i64);
            msg.append(" units");
            return Err(msg);
        }
        let revenue = total as i64;
        let ghost before = *self;
        self.ships[session.ship_id].cargo[g] = self.ships[session.ship_id].cargo[g] - qty;
        if g < HEAVY_GOODS {
            self.ships[session.ship_id].net_tonnage = self.ships[session.ship_id].net_tonnage - qty;
        }
        self.systems[session.system_id].stock[g] = self.systems[session.system_id].stock[g] + qty;
        self.ships[session.ship_id].cash = self.ships[session.ship_id].cash + revenue;
        proof {
            assert(self.ships@[session.ship_id as int].cargo@ =~= before.ships@[session.ship_id as int].cargo@.update(g as int, (before.ships@[session.ship_id as int].cargo@[g as int] - qty) as i32));
            assert(self.systems@[session.system_id as int].stock@ =~= before.systems@[session.system_id as int].stock@.update(g as int, (before.systems@[session.system_id as int].stock@[g as int] + qty) as i32));
        }
        Ok(revenue)
    }

    /// Why a direct purchase at the listed price is refused, in the game's words.
    pub open spec fn buy_refusal(&self, ship_id: int, system_id: int, g: int, qty: int) -> Option<Seq<char>> {
        if qty <= 0 {
            Some("Quantity must be positive"@)
        } else if system_id >= self.systems@.len() || ship_id >= self.ships@.len() {
            Some("Invalid selection"@)
        } else if self.systems@[system_id].prices@[g] <= 0 {
            Some("Item not for sale"@)
        } else if self.ships@[ship_id].location != system_id {
            Some("Ship is not at this system"@)
        } else if self.systems@[system_id].stock@[g] < qty {
            Some("Not enough stock"@)
        } else if g < HEAVY_GOODS && self.ships@[ship_id].net_tonnage + qty > self.max_tonnage {
            Some("Exceeds tonnage limit"@)
        } else if self.ships@[ship_id].cash < self.systems@[system_id].prices@[g] * qty {
            Some("Not enough cash"@)
        } else {
            None
        }
    }

    /// Why a direct sale at the listed price is refused, in the game's words.
    pub open spec fn sell_refusal(&self, ship_id: int, system_id: int, g: int, qty: int) -> Option<Seq<char>> {
        if qty <= 0 {
            Some("Quantity must be positive"@)
        } else if system_id >= self.systems@.len() || ship_id >= self.ships@.len() {
            Some("Invalid selection"@)
        } else if self.ships@[ship_id].location != system_id {
            Some("Ship is not at this system"@)
        } else if self.ships@[ship_id].cargo@[g] < qty {
            Some("Not enough cargo"@)
        } else if self.systems@[system_id].stock@[g] >= 0 {
            Some("System not buying this good"@)
        } else if qty > -self.systems@[system_id].stock@[g] * 2 {
            Some(
                "They'll consider up to "@ + decimal(-self.systems@[system_id].stock@[g] * 2)
                    + " units"@,
            )
        } else {
            None
        }
    }

    /// Buys `qty` units at the system's listed price, without haggling. The
    /// ship pays price times quantity; refused, with nothing changed, for the
    /// reasons that `buy_refusal` lists.
    pub fn buy(&mut self, ship_id: usize, system_id: usize, good_idx: usize, qty: i32) -> (r: Result<String, String>)
        requires
            qty > 0 && system_id < old(self).systems@.len() && ship_id < old(self).ships@.len() ==> {
                &&& good_idx < GOODS_COUNT
                &&& (good_idx < HEAVY_GOODS ==> old(self).ships@[ship_id as int].net_tonnage + qty <= i32::MAX)
                &&& (old(self).buy_refusal(ship_id as int, system_id as int, good_idx as int, qty as int) is None
                    ==> old(self).ships@[ship_id as int].cargo@[good_idx as int] + qty <= i32::MAX)
            },
        ensures
            match r {
                Ok(msg) => {
                    let cost = old(self).systems@[system_id as int].prices@[good_idx as int] * qty;
                    &&& old(self).buy_refusal(ship_id as int, system_id as int, good_idx as int, qty as int) is None
                    &&& traded(old(self), final(self), ship_id as int, system_id as int, good_idx as int, qty as int, -cost)
                    &&& msg@ == "Bought "@ + decimal(qty as int) + " "@ + Merchandise::code_at(good_idx as int)
                        + " for $"@ + decimal(cost)
                },
                Err(e) => {
                    &&& old(self).buy_refusal(ship_id as int, system_id as int, good_idx as int, qty as int) == Some(e@)
                    &&& *final(self) == *old(self)
                },
            },
    {
        if qty <= 0 {
            return Err(text("Quantity must be positive"));
        }
        if system_id >= self.systems.len() || ship_id >= self.ships.len() {
            return Err(text("Invalid selection"));
        }
        let price_each = self.systems[system_id].prices[good_idx];
        if price_each <= 0 {
            return Err(text("Item not for sale"));
        }
        if self.ships[ship_id].location != system_id {
            return Err(text("Ship is not at this system"));
        }
        if self.systems[system_id].stock[good_idx] < qty {
            return Err(text("Not enough stock"));
        }
        let mut weight = self.ships[ship_id].net_tonnage;
        if good_idx < HEAVY_GOODS {
            weight = weight + qty;
            if weight > self.max_tonnage {
                return Err(text("Exceeds tonnage limit"));
            }
        }
        proof {
            lemma_i32_product_fits(price_each, qty);
        }
        let cost: i64 = price_each as i64 * qty as i64;
        if self.ships[ship_id].cash < cost {
            return Err(text("Not enough cash"));
        }
        let ghost before = *self;
        self.ships[ship_id].cash = self.ships[ship_id].cash - cost;
        self.ships[ship_id].cargo[good_idx] = self.ships[ship_id].cargo[good_idx] + qty;
        if good_idx < HEAVY_GOODS {
            self.ships[ship_id].net_tonnage = weight;
        }
        self.systems[system_id].stock[good_idx] = self.systems[system_id].stock[good_idx] - qty;
        proof {
            assert(self.ships@[ship_id as int].cargo@ =~= before.ships@[ship_id as int].cargo@.update(good_idx as int, (before.ships@[ship_id as int].cargo@[good_idx as int] + qty) as i32));
            assert(self.systems@[system_id as int].stock@ =~= before.systems@[system_id as int].stock@.update(good_idx as int, (before.systems@[system_id as int].stock@[good_idx as int] - qty) as i32));
        }
        let mut msg = text("Bought ");
        push_decimal(&mut msg, qty as i64);
        msg.append(" ");
        msg.append(Merchandise::from_idx(good_idx).code());
        msg.append(" for $");
        push_decimal(&mut msg, cost);
        Ok(msg)
    }

    /// Sells `qty` units at the system's listed price, without haggling.
    /// The ship receives price times quantity; refused, with nothing changed,
    /// for the reasons that `sell_refusal` lists.
    pub fn sell(&mut self, ship_id: usize, system_id: usize, good_idx: usize, qty: i32) -> (r: Result<String, String>)
        requires
            old(self).trade_reaches_good(ship_id as int, system_id as int, qty as int) ==> {
                &&& good_idx < GOODS_COUNT
                &&& (old(self).systems@[system_id as int].stock@[good_idx as int] < 0
                    ==> -old(self).systems@[system_id as int].stock@[good_idx as int] * 2 <= i32::MAX)
                &&& (old(self).sell_refusal(ship_id as int, system_id as int, good_idx as int, qty as int) is None
                    ==> {
                    &&& (good_idx < HEAVY_GOODS ==> old(self).ships@[ship_id as int].net_tonnage - qty >= i32::MIN)
                    &&& i64::MIN <= old(self).ships@[ship_id as int].cash
                        + old(self).systems@[system_id as int].prices@[good_idx as int] * qty <= i64::MAX
                })
            },
        ensures
            match r {
                Ok(msg) => {
                    let revenue = old(self).systems@[system_id as int].prices@[good_idx as int] * qty;
                    &&& old(self).sell_refusal(ship_id as int, system_id as int, good_idx as int, qty as int) is None
                    &&& traded(old(self), final(self), ship_id as int, system_id as int, good_idx as int, -qty, revenue)
                    &&& msg@ == "Sold "@ + decimal(qty as int) + " "@ + Merchandise::code_at(good_idx as int)
                        + " for $"@ + decimal(revenue)
                },
                Err(e) => {
                    &&& old(self).sell_refusal(ship_id as int, system_id as int, good_idx as int, qty as int) == Some(e@)
                    &&& *final(self) == *old(self)
                },
            },
    {
        if qty <= 0 {
            return Err(text("Quantity must be positive"));
        }
        if system_id >= self.systems.len() || ship_id >= self.ships.len() {
            return Err(text("Invalid selection"));
        }
        if self.ships[ship_id].location != system_id {
            return Err(text("Ship is not at this system"));
        }
        if self.ships[ship_id].cargo[good_idx] < qty {
            return Err(text("Not enough cargo"));
        }
        if self.systems[system_id].stock[good_idx] >= 0 {
            return Err(text("System not buying this good"));
        }
        let max_buy = -self.systems[system_id].stock[good_idx] * 2;
        if qty > max_buy {
            let mut msg = text("They'll consider up to ");
            push_decimal(&mut msg, max_buy as i64);
            msg.append(" units");
            return Err(msg);
        }
        let price_each = self.systems[system_id].prices[good_idx];
        proof {
            lemma_i32_product_fits(price_each, qty);
        }
        let revenue: i64 = price_each as i64 * qty as i64;
        let ghost before = *self;
        self.ships[ship_id].cargo[good_idx] = self.ships[ship_id].cargo[good_idx] - qty;
        if good_idx < HEAVY_GOODS {
            self.ships[ship_id].net_tonnage = self.ships[ship_id].net_tonnage - qty;
        }
        self.systems[system_id].stock[good_idx] = self.systems[system_id].stock[good_idx] + qty;
        self.ships[ship_id].cash = self.ships[ship_id].cash + revenue;
        proof {
            assert(self.ships@[ship_id as int].cargo@ =~= before.ships@[ship_id as int].cargo@.update(good_idx as int, (before.ships@[ship_id as int].cargo@[good_idx as int] - qty) as i32));
            assert(self.systems@[system_id as int].stock@ =~= before.systems@[system_id as int].stock@.update(good_idx as int, (before.systems@[system_id as int].stock@[good_idx as int] + qty) as i32));
        }
        let mut msg = text("Sold ");
        push_decimal(&mut msg, qty as i64);
        msg.append(" ");
        msg.append(Merchandise::from_idx(good_idx).code());
        msg.append(" for $");
        push_decimal(&mut msg, revenue);
        Ok(msg)
    }
}


/// Where an offer lies against the window of prices the system will
/// consider, which the program works out from the fair price in floating
/// point: below it, above it (when buying), at or better than the fair
/// price, or inside the window but short of the fair price.
#[derive(Debug, Clone, Copy, PartialEq, Eq, Structural)]
pub enum OfferBand {
    TooLow,
    TooHigh,
    Acceptable,
    Haggle,
}

/// The decision of one bidding round: a refusal with its message, a refusal
/// because the offer fell below or above the window (whose bound the
/// program reports), acceptance, or a counter-offer in the next round.
#[derive(Debug)]
pub enum HaggleStep {
    Refuse(String),
    TooLow,
    TooHigh,
    Accept,
    Counter(TradeSession),
}

/// The decision of a bidding round over `session` on an offer of `offer`
/// credits lying in `band`: a non-positive offer is refused outright; an
/// offer outside the window is refused; one at or better than the fair
/// price is accepted; otherwise the system counters in the next round,
/// unless this was the last round, when it passes.
pub fn haggle_step(session: TradeSession, offer: i32, band: OfferBand) -> (r: HaggleStep)
    ensures
        offer <= 0 ==> (r matches HaggleStep::Refuse(m) && m@ == (if session.kind == TradeKind::BuyFromSystem {
            "Offer must be positive"@
        } else {
            "Price must be positive"@
        })),
        offer > 0 && band == OfferBand::TooLow ==> r is TooLow,
        offer > 0 && band == OfferBand::TooHigh ==> r is TooHigh,
        offer > 0 && band == OfferBand::Acceptable ==> r is Accept,
        offer > 0 && band == OfferBand::Haggle && session.round >= session.max_rounds ==> (r matches HaggleStep::Refuse(m)
            && m@ == "They pass after final round."@),
        offer > 0 && band == OfferBand::Haggle && session.round < session.max_rounds ==> r == HaggleStep::Counter(
            TradeSession { round: (session.round + 1) as usize, ..session },
        ),
{
    if offer <= 0 {
        return match session.kind {
            TradeKind::BuyFromSystem => HaggleStep::Refuse(text("Offer must be positive")),
            TradeKind::SellToSystem => HaggleStep::Refuse(text("Price must be positive")),
        };
    }
    match band {
        OfferBand::TooLow => HaggleStep::TooLow,
        OfferBand::TooHigh => HaggleStep::TooHigh,
        OfferBand::Acceptable => HaggleStep::Accept,
        OfferBand::Haggle => {
            if session.round >= session.max_rounds {
                HaggleStep::Refuse(text("They pass after final round."))
            } else {
                HaggleStep::Counter(session.next_round())
            }
        },
    }
}

} // verus!
