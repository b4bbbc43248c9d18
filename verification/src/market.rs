use vstd::prelude::*;

use crate::date::GameDate;
use crate::goods::GOODS_COUNT;
use crate::text::{decimal, push_decimal, text};
use crate::world::{
    GameState, MAX_DEV_QUARTERS, MAX_SYSTEMS, StarSystem, class_for_quarters, class_from_quarters,
    roll_inclusive,
};
use crate::star::StarClass;

verus! {

/// New stock levels and prices for a system's six goods, as the price model
/// computes them for a date.
#[derive(Debug, Clone, Copy)]
pub struct MarketUpdate {
    pub stock: [i32; 6],
    pub prices: [i32; 6],
}

/// Development score of a new frontier system (3 points), in quarter points.
pub const FRONTIER_DEV_QUARTERS: i32 = 12;

/// Average class score at which the galaxy discovers a new frontier system.
pub const NEW_STAR_THRESHOLD: i64 = 10;

/// One development step: a system below 15 points gains `inc` quarter
/// points, capped at 15 points.
pub open spec fn develop_step(q: int, inc: int) -> int {
    if q < 60 {
        if q + inc >= 60 {
            60
        } else if q + inc < i32::MIN {
            i32::MIN as int
        } else {
            q + inc
        }
    } else {
        q
    }
}

/// `s2` is `s1` after a repricing for `date` that yielded `upd`.
pub open spec fn repriced(s1: StarSystem, s2: StarSystem, date: GameDate, upd: MarketUpdate) -> bool {
    &&& s2.stock == upd.stock
    &&& s2.prices == upd.prices
    &&& s2.last_update == date
    &&& s2.class == class_for_quarters(s1.dev_score_quarters as int)
    &&& s2.id == s1.id
    &&& s2.name == s1.name
    &&& s2.dev_score_quarters == s1.dev_score_quarters
    &&& s2.coords == s1.coords
}

/// `s2` is `s1` repriced for `date` with some result that `reprice`
/// may return for `s1` and `date`.
pub open spec fn repriced_by<F: Fn(&StarSystem, GameDate) -> MarketUpdate>(
    reprice: &F,
    s1: StarSystem,
    s2: StarSystem,
    date: GameDate,
) -> bool {
    exists|upd: MarketUpdate| #[trigger] reprice.ensures((&s1, date), upd) && repriced(s1, s2, date, upd)
}

/// `s2` is `s1` after one development step of `inc` quarter points.
pub open spec fn developed_once(s1: StarSystem, s2: StarSystem, inc: int) -> bool {
    &&& s2.dev_score_quarters == develop_step(s1.dev_score_quarters as int, inc)
    &&& s2.class == (if s1.dev_score_quarters < 60 {
        class_for_quarters(develop_step(s1.dev_score_quarters as int, inc))
    } else {
        s1.class
    })
    &&& s2.stock == s1.stock
    &&& s2.prices == s1.prices
    &&& s2.last_update == s1.last_update
    &&& s2.id == s1.id
    &&& s2.name == s1.name
    &&& s2.coords == s1.coords
}

/// Sum of the raw class scores of the systems.
pub open spec fn class_score_total(systems: Seq<StarSystem>) -> int
    decreases systems.len(),
{
    if systems.len() == 0 {
        0
    } else {
        class_score_total(systems.drop_last()) + systems.last().class.score_of()
    }
}

/// The galaxy is developed enough for a new frontier system: fewer than 12
/// systems, and an average raw class score of at least 10.
pub open spec fn spawn_due(systems: Seq<StarSystem>) -> bool {
    &&& systems.len() < MAX_SYSTEMS
    &&& systems.len() > 0
    &&& class_score_total(systems) >= NEW_STAR_THRESHOLD * systems.len()
}

/// Name of the frontier system discovered as the galaxy's `n`-th system.
pub open spec fn frontier_name(n: int) -> Seq<char> {
    "FRONTIER-"@ + decimal(n)
}

/// `s` is the frontier system discovered as system number `n` (counting
/// from 0) at `coords` on `date`: Class IV, 3 points of development, a stock
/// of -6 to 6 units of each good but never 0, and its market then priced by
/// `reprice`.
pub open spec fn frontier_system<F: Fn(&StarSystem, GameDate) -> MarketUpdate>(
    s: StarSystem,
    n: int,
    coords: (i16, i16),
    date: GameDate,
    reprice: &F,
) -> bool {
    &&& s.id == n
    &&& s.name@ == frontier_name(n + 1)
    &&& s.class == StarClass::IV
    &&& s.dev_score_quarters == FRONTIER_DEV_QUARTERS
    &&& s.coords == coords
    &&& s.last_update == date
    &&& exists|fresh: StarSystem| {
        &&& #[trigger] repriced_by(reprice, fresh, s, date)
        &&& fresh.prices@ == seq![0i32, 0, 0, 0, 0, 0]
        &&& forall|g: int| 0 <= g < GOODS_COUNT ==> {
            &&& -6 <= #[trigger] fresh.stock@[g] <= 6
            &&& fresh.stock@[g] != 0
        }
    }
}

/// The announcement of the frontier system numbered `n` (from 0) at `coords`.
pub open spec fn frontier_notice(n: int, coords: (i16, i16)) -> Seq<char> {
    "New frontier system discovered: "@ + frontier_name(n + 1) + " at ("@ + decimal(coords.0 as int) + ","@
        + decimal(coords.1 as int) + ")"@
}

/// `b` differs from `a` at most in system `id`; all other fields agree.
pub open spec fn only_system_changed(a: &GameState, b: &GameState, id: int) -> bool {
    &&& b.systems@.len() == a.systems@.len()
    &&& forall|i: int| 0 <= i < a.systems@.len() && i != id ==> #[trigger] b.systems@[i] == a.systems@[i]
    &&& b.ships == a.ships
    &&& b.date == a.date
    &&& b.selected_system == a.selected_system
    &&& b.selected_ship == a.selected_ship
    &&& b.selected_good == a.selected_good
    &&& b.max_tonnage == a.max_tonnage
    &&& b.development_increment_quarters == a.development_increment_quarters
    &&& b.bank_balance == a.bank_balance
    &&& b.bank_last_date == a.bank_last_date
    &&& b.max_bid_rounds == a.max_bid_rounds
    &&& b.rng == a.rng
}

impl GameState {
    /// Brings system `system_id`'s market up to `date`: its stock and prices
    /// become what `reprice` (the price model) yields for it, its last update
    /// becomes `date`, and its class follows its rounded development score.
    /// No change when the system does not exist.
    pub fn update_system_for_date<F: Fn(&StarSystem, GameDate) -> MarketUpdate>(
        &mut self,
        system_id: usize,
        date: GameDate,
        reprice: &F,
    )
        requires
            forall|s: &StarSystem, d: GameDate| #[trigger] reprice.requires((s, d)),
        ensures
            only_system_changed(old(self), final(self), system_id as int),
            system_id < old(self).systems@.len() ==> repriced_by(
                reprice,
                old(self).systems@[system_id as int],
                final(self).systems@[system_id as int],
                date,
            ),
            system_id >= old(self).systems@.len() ==> *final(self) == *old(self),
    {
        if system_id >= self.systems.len() {
            return;
        }
        let upd = reprice(&self.systems[system_id], date);
        let class = class_from_quarters(self.systems[system_id].dev_score_quarters);
        self.systems[system_id].stock = upd.stock;
        self.systems[system_id].prices = upd.prices;
        self.systems[system_id].last_update = date;
        self.systems[system_id].class = class;
    }

    /// Reprices every system for today's date.
    pub fn reprice_all<F: Fn(&StarSystem, GameDate) -> MarketUpdate>(&mut self, reprice: &F)
        requires
            forall|s: &StarSystem, d: GameDate| #[trigger] reprice.requires((s, d)),
        ensures
            final(self).systems@.len() == old(self).systems@.len(),
            forall|i: int| 0 <= i < old(self).systems@.len() ==> repriced_by(
                reprice,
                old(self).systems@[i],
                #[trigger] final(self).systems@[i],
                old(self).date,
            ),
            final(self).ships == old(self).ships,
            final(self).date == old(self).date,
            final(self).selected_system == old(self).selected_system,
            final(self).selected_ship == old(self).selected_ship,
            final(self).selected_good == old(self).selected_good,
            final(self).max_tonnage == old(self).max_tonnage,
            final(self).development_increment_quarters == old(self).development_increment_quarters,
            final(self).bank_balance == old(self).bank_balance,
            final(self).bank_last_date == old(self).bank_last_date,
            final(self).max_bid_rounds == old(self).max_bid_rounds,
            final(self).rng == old(self).rng,
    {
        let date = self.date;
        let n = self.systems.len();
        let ghost start = *self;
        let mut id: usize = 0;
        while id < n
            invariant
                id <= n,
                n == start.systems@.len(),
                forall|s: &StarSystem, d: GameDate| #[trigger] reprice.requires((s, d)),
                date == start.date,
                self.systems@.len() == n,
                forall|i: int| id <= i < n ==> #[trigger] self.systems@[i] == start.systems@[i],
                forall|i: int| 0 <= i < id ==> repriced_by(
                    reprice,
                    start.systems@[i],
                    #[trigger] self.systems@[i],
                    start.date,
                ),
                self.ships == start.ships,
                self.date == start.date,
                self.selected_system == start.selected_system,
                self.selected_ship == start.selected_ship,
                self.selected_good == start.selected_good,
                self.max_tonnage == start.max_tonnage,
                self.development_increment_quarters == start.development_increment_quarters,
                self.bank_balance == start.bank_balance,
                self.bank_last_date == start.bank_last_date,
                self.max_bid_rounds == start.max_bid_rounds,
                self.rng == start.rng,
            decreases n - id,
        {
            let ghost before = *self;
            self.update_system_for_date(id, date, reprice);
            assert(before.systems@[id as int] == start.systems@[id as int]);
            assert forall|i: int| 0 <= i < id + 1 implies repriced_by(
                reprice,
                start.systems@[i],
                #[trigger] self.systems@[i],
                start.date,
            ) by {
                if i < id {
                    assert(self.systems@[i] == before.systems@[i]);
                }
            }
            id = id + 1;
        }
    }

    /// A system below 15 points of development gains the game's development
    /// increment, up to 15 points, and its class follows; nothing happens to a
    /// fully developed or missing system. (A score is kept in an `i32` of
    /// quarter points, so a negative increment stops at `i32::MIN` quarters.)
    pub fn increment_development(&mut self, system_id: usize)
        ensures
            only_system_changed(old(self), final(self), system_id as int),
            system_id < old(self).systems@.len() ==> developed_once(
                old(self).systems@[system_id as int],
                final(self).systems@[system_id as int],
                old(self).development_increment_quarters as int,
            ),
            system_id >= old(self).systems@.len() ==> *final(self) == *old(self),
    {
        if system_id >= self.systems.len() {
            return;
        }
        let q = self.systems[system_id].dev_score_quarters;
        if q < MAX_DEV_QUARTERS {
            let raised: i64 = q as i64 + self.development_increment_quarters as i64;
            let capped: i32 = if raised >= MAX_DEV_QUARTERS as i64 {
                MAX_DEV_QUARTERS
            } else if raised < i32::MIN as i64 {
                i32::MIN
            } else {
                raised as i32
            };
            self.systems[system_id].dev_score_quarters = capped;
            self.systems[system_id].class = class_from_quarters(capped);
        }
    }

    /// Sum of the raw class scores of all systems.
    fn class_score_sum(&self) -> (r: i64)
        requires
            self.systems@.len() <= MAX_SYSTEMS,
        ensures
            r == class_score_total(self.systems@),
    {
        let mut total: i64 = 0;
        let n = self.systems.len();
        for i in 0..n
            invariant
                n == self.systems@.len(),
                n <= MAX_SYSTEMS,
                total == class_score_total(self.systems@.subrange(0, i as int)),
                0 <= total <= 15 * i,
        {
            proof {
                assert(self.systems@.subrange(0, i + 1).drop_last() =~= self.systems@.subrange(0, i as int));
            }
            total = total + self.systems[i].class.raw_score() as i64;
        }
        proof {
            assert(self.systems@.subrange(0, n as int) =~= self.systems@);
        }
        total
    }

    /// When the galaxy is developed enough (fewer than 12 systems and an
    /// average class score of at least 10), discovers a new Class IV frontier
    /// system at `coords`, named `FRONTIER-<n>` where it is the `n`-th system,
    /// with 3 points of development, a random stock of -6 to 6 units of each
    /// good (never 0), and its market priced for today by `reprice`. Returns
    /// the announcement, or `None` when no system appears.
    pub fn maybe_spawn_new_star<F: Fn(&StarSystem, GameDate) -> MarketUpdate>(
        &mut self,
        coords: (i16, i16),
        reprice: &F,
    ) -> (r: Option<String>)
        requires
            old(self).systems@.len() <= MAX_SYSTEMS,
            forall|s: &StarSystem, d: GameDate| #[trigger] reprice.requires((s, d)),
        ensures
            final(self).ships == old(self).ships,
            final(self).date == old(self).date,
            final(self).selected_system == old(self).selected_system,
            final(self).selected_ship == old(self).selected_ship,
            final(self).selected_good == old(self).selected_good,
            final(self).max_tonnage == old(self).max_tonnage,
            final(self).development_increment_quarters == old(self).development_increment_quarters,
            final(self).bank_balance == old(self).bank_balance,
            final(self).bank_last_date == old(self).bank_last_date,
            final(self).max_bid_rounds == old(self).max_bid_rounds,
            r is Some <==> spawn_due(old(self).systems@),
            !spawn_due(old(self).systems@) ==> *final(self) == *old(self),
            spawn_due(old(self).systems@) ==> {
                let n = old(self).systems@.len() as int;
                &&& final(self).systems@.len() == n + 1
                &&& final(self).systems@.subrange(0, n) == old(self).systems@
                &&& frontier_system(final(self).systems@[n], n, coords, old(self).date, reprice)
                &&& r.unwrap()@ == frontier_notice(n, coords)
            },
    {
        if self.systems.len() >= MAX_SYSTEMS {
            return None;
        }
        let len = self.systems.len();
        let total = self.class_score_sum();
        let denom: i64 = if len > 0 { len as i64 } else { 1 };
        if len == 0 || total < NEW_STAR_THRESHOLD * denom {
            return None;
        }
        let id = len;
        let mut name = text("FRONTIER-");
        push_decimal(&mut name, (id + 1) as i64);
        let mut stock: [i32; 6] = [0i32; 6];
        let ghost pre = *self;
        for k in 0..GOODS_COUNT
            invariant
                self.systems == pre.systems,
                self.ships == pre.ships,
                self.date == pre.date,
                self.selected_system == pre.selected_system,
                self.selected_ship == pre.selected_ship,
                self.selected_good == pre.selected_good,
                self.max_tonnage == pre.max_tonnage,
                self.development_increment_quarters == pre.development_increment_quarters,
                self.bank_balance == pre.bank_balance,
                self.bank_last_date == pre.bank_last_date,
                self.max_bid_rounds == pre.max_bid_rounds,
                forall|g: int| 0 <= g < k ==> -6 <= #[trigger] stock@[g] <= 6 && stock@[g] != 0,
        {
            let val = roll_inclusive(&mut self.rng, -6, 6);
            stock[k] = if val == 0 {
                1
            } else {
                val
            };
        }
        let system = StarSystem {
            id,
            name,
            class: StarClass::IV,
            dev_score_quarters: FRONTIER_DEV_QUARTERS,
            coords,
            stock,
            last_update: self.date,
            prices: [0i32; 6],
        };
        let ghost fresh = system;
        let ghost before_push = self.systems@;
        self.systems.push(system);
        let date = self.date;
        self.update_system_for_date(id, date, reprice);
        proof {
            assert(fresh.prices@ =~= seq![0i32, 0, 0, 0, 0, 0]);
            assert(repriced_by(reprice, fresh, self.systems@[id as int], date));
            assert(self.systems@.len() == len + 1);
            assert(self.systems@.subrange(0, len as int) =~= before_push);
        }
        let mut msg = text("New frontier system discovered: ");
        msg.append(self.systems[id].name.as_str());
        msg.append(" at (");
        push_decimal(&mut msg, coords.0 as i64);
        msg.append(",");
        push_decimal(&mut msg, coords.1 as i64);
        msg.append(")");
        Some(msg)
    }
}

} // verus!
