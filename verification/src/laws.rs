//! Properties that hold across the game's operations.

use vstd::prelude::*;

use crate::date::{GameDate, lemma_add_days_counts, lemma_order_matches_day_number};
use crate::goods::{GOODS_COUNT, HEAVY_GOODS, Merchandise};
use crate::trade::{tons_of, traded};
use crate::travel::Travel;
use crate::world::{GameState, StarSystem, cycled};
use crate::arrivals::{arrival_outcome, due, under_way};
use crate::market::{MarketUpdate, class_score_total, develop_step, spawn_due};
use crate::session::{EVENT_LOG_LIMIT, logged};
use crate::demo::demo_layout;
use crate::session::{App, Effect, HIGHLIGHT_TICKS, credits_ok, highlights_refreshed, overlay_step};
use crate::keys::{Command, Key};
use crate::trade::TradeSession;
use crate::world::{TradeKind, MAX_SYSTEMS};

verus! {

/// Stepping through a list of `len` entries always lands on an entry, and
/// stepping back by the same amount returns to where the selection was.
pub proof fn law_cycle_round_trip(current: usize, delta: i8, len: int)
    requires
        0 < len <= i32::MAX,
        current < len,
        delta > i8::MIN,
    ensures
        0 <= cycled(current, delta, len) < len,
        cycled(cycled(current, delta, len) as usize, (-delta) as i8, len) == current,
{
    let c: int = current as int;
    assert((current as i32) as int == c);
    let x = c + delta;
    let c1 = x % len;
    let q = x / len;
    vstd::arithmetic::div_mod::lemma_fundamental_div_mod(x, len);
    assert(0 <= c1 < len);
    assert((c1 as usize as i32) as int == c1);
    assert(c1 - delta == (-q) * len + c) by (nonlinear_arith)
        requires
            x == len * q + c1,
            x == c + delta,
    ;
    vstd::arithmetic::div_mod::lemma_fundamental_div_mod_converse(c1 - delta, len, -q, c);
}

/// A trade neither creates nor destroys goods: the units of the traded good
/// in the ship's hold plus those in the system's stock are the same before
/// and after, the other goods are untouched, and the ship's cash and
/// tonnage move by exactly the trade's price and weight.
pub proof fn law_trade_conserves_goods(
    a: &GameState,
    b: &GameState,
    ship: int,
    system: int,
    g: int,
    dq: int,
    dcash: int,
)
    requires
        0 <= ship < a.ships@.len(),
        0 <= system < a.systems@.len(),
        0 <= g < GOODS_COUNT,
        i32::MIN <= a.ships@[ship].cargo@[g] + dq <= i32::MAX,
        i32::MIN <= a.systems@[system].stock@[g] - dq <= i32::MAX,
        traded(a, b, ship, system, g, dq, dcash),
    ensures
        b.ships@[ship].cargo@[g] + b.systems@[system].stock@[g] == a.ships@[ship].cargo@[g]
            + a.systems@[system].stock@[g],
        forall|h: int| 0 <= h < GOODS_COUNT && h != g ==> #[trigger] b.ships@[ship].cargo@[h]
            == a.ships@[ship].cargo@[h] && b.systems@[system].stock@[h] == a.systems@[system].stock@[h],
        b.ships@[ship].cash == a.ships@[ship].cash + dcash,
        b.ships@[ship].net_tonnage == a.ships@[ship].net_tonnage + tons_of(g, dq),
        b.bank_balance == a.bank_balance,
{
}

/// The tonnage a trade adds to a hold is the units traded times the weight
/// of one unit of the good.
pub proof fn law_tonnage_follows_weight(g: int, qty: int)
    requires
        0 <= g < GOODS_COUNT,
    ensures
        tons_of(g, qty) == qty * Merchandise::at_index(g).weight_of(),
{
}

/// Selling back what was just bought (or buying back what was just sold)
/// at the same system restores the hold, the tonnage and the market; only
/// the money that changed hands remains.
pub proof fn law_trade_undone_by_reverse_trade(
    a: &GameState,
    b: &GameState,
    c: &GameState,
    ship: int,
    system: int,
    g: int,
    dq: int,
    paid: int,
    received: int,
)
    requires
        0 <= ship < a.ships@.len(),
        0 <= system < a.systems@.len(),
        0 <= g < GOODS_COUNT,
        i32::MIN <= a.ships@[ship].cargo@[g] + dq <= i32::MAX,
        i32::MIN <= a.systems@[system].stock@[g] - dq <= i32::MAX,
        traded(a, b, ship, system, g, dq, -paid),
        traded(b, c, ship, system, g, -dq, received),
    ensures
        c.ships@[ship].cargo == a.ships@[ship].cargo,
        c.ships@[ship].net_tonnage == a.ships@[ship].net_tonnage,
        c.systems@[system] == a.systems@[system],
        c.ships@[ship].cash == a.ships@[ship].cash - paid + received,
        c.systems@ == a.systems@,
{
    assert(c.ships@[ship].cargo@ =~= a.ships@[ship].cargo@);
    assert(c.systems@[system].stock@ =~= a.systems@[system].stock@);
    assert(c.ships@[ship].cargo == a.ships@[ship].cargo);
    assert(c.systems@[system].stock == a.systems@[system].stock);
    assert(c.systems@ =~= a.systems@);
}

/// Banking only moves credits between a ship and the bank: with the bank
/// balance set to the balance after interest minus what the ship received,
/// the ship's cash plus the bank balance equals what it was plus the
/// interest credited, and nothing else in the galaxy changes.
pub proof fn law_bank_moves_credits(a: &GameState, b: &GameState, ship: int, interest: int, delta: int)
    requires
        0 <= ship < a.ships@.len(),
        GameState::banked(a, b, ship, a.balance_after_interest(interest) - delta, delta),
    ensures
        b.ships@[ship].cash + b.bank_balance == a.ships@[ship].cash + a.balance_after_interest(interest),
        b.systems == a.systems,
        b.ships@[ship].cargo == a.ships@[ship].cargo,
{
}

/// Withdrawing, on the same day, what was just deposited leaves the fleet as
/// it was and the bank with its balance after interest: no interest is due
/// twice on one day.
pub proof fn law_withdrawal_undoes_deposit(
    a: &GameState,
    b: &GameState,
    c: &GameState,
    ship: int,
    amount: int,
    interest: int,
    later_interest: int,
)
    requires
        0 <= ship < a.ships@.len(),
        GameState::banked(a, b, ship, a.balance_after_interest(interest) + amount, -amount),
        GameState::banked(b, c, ship, b.balance_after_interest(later_interest) - amount, amount),
    ensures
        c.ships@ == a.ships@,
        c.bank_balance == a.balance_after_interest(interest),
        c.systems == a.systems,
        c.date == a.date,
{
    assert(!b.interest_due());
    assert(c.ships@[ship] == a.ships@[ship]);
    assert(c.ships@ =~= a.ships@);
}

/// Only Class I and II systems have banks: a deposit of a positive amount
/// by a ship at a system of another class is refused for that reason.
pub proof fn law_banks_only_at_developed_systems(state: &GameState, ship: int, amount: int)
    requires
        0 <= ship < state.ships@.len(),
        amount > 0,
        !state.systems@[state.ships@[ship].location as int].class.banks(),
    ensures
        state.deposit_refusal(ship, amount) == Some("No bank at this system"@),
        state.withdraw_precheck(ship, amount) == Some("No bank at this system"@),
{
}

/// Money deposited at one system can be drawn at any system with a bank:
/// after a deposit, any ship at a banked system may withdraw the amount
/// deposited, whatever interest it reckons.
pub proof fn law_deposit_available_elsewhere(
    a: &GameState,
    b: &GameState,
    depositor: int,
    drawer: int,
    amount: int,
    interest: int,
    later_interest: int,
)
    requires
        0 <= depositor < a.ships@.len(),
        0 <= drawer < a.ships@.len(),
        amount > 0,
        a.balance_after_interest(interest) >= 0,
        GameState::banked(a, b, depositor, a.balance_after_interest(interest) + amount, -amount),
        a.systems@[a.ships@[drawer].location as int].class.banks(),
    ensures
        b.withdraw_precheck(drawer, amount) is None,
        b.balance_after_interest(later_interest) >= amount,
{
    assert(b.ships@[drawer].location == a.ships@[drawer].location);
}

/// A purchase never loads a hold beyond the game's tonnage limit: after a
/// purchase that went through, a heavy good leaves the hold within the limit
/// and a weightless one leaves its tonnage as it was.
pub proof fn law_hold_limit(a: &GameState, b: &GameState, ship: int, system: int, g: int, qty: int, cost: int)
    requires
        0 <= g < GOODS_COUNT,
        a.buy_refusal(ship, system, g, qty) is None,
        traded(a, b, ship, system, g, qty, -cost),
    ensures
        g < crate::goods::HEAVY_GOODS ==> b.ships@[ship].net_tonnage <= a.max_tonnage,
        g >= crate::goods::HEAVY_GOODS ==> b.ships@[ship].net_tonnage == a.ships@[ship].net_tonnage,
        b.max_tonnage == a.max_tonnage,
{
}

/// A voyage never arrives before it sets out: its arrival date is exactly
/// its days of travel and weeks of delay after the day it starts, and the
/// arrival day is a valid day of the year.
pub proof fn law_eta_not_before_departure(t: Travel, start: GameDate)
    requires
        t.valid(),
        1 <= start.day <= 360,
        start.year <= i32::MAX - 400,
    ensures
        t.eta_from(start).day_number() == start.day_number() + t.base_days + 7 * t.delay_total(),
        1 <= t.eta_from(start).day <= 360,
        start.le(t.eta_from(start)),
{
    let e1 = start.plus_days(t.base_days as int);
    lemma_add_days_counts(start, t.base_days as int);
    assert(1 <= e1.day <= 360);
    assert(e1.year <= start.year + 183);
    let w1 = 7 * t.first_delay_weeks;
    let e2 = if t.first_delay_weeks > 0 {
        e1.plus_days(w1)
    } else {
        e1
    };
    if t.first_delay_weeks > 0 {
        lemma_add_days_counts(e1, w1);
    }
    assert(1 <= e2.day <= 360);
    assert(e2.year <= start.year + 184);
    let w2 = 7 * t.second_delay_weeks;
    if t.second_delay_weeks > 0 {
        lemma_add_days_counts(e2, w2);
    }
    let e3 = t.eta_from(start);
    assert(1 <= e3.day <= 360);
    lemma_order_matches_day_number(start, e3);
}

/// Advancing to the next arrival never leaves a ship under way due before
/// the new date: the calendar moves to the earliest arrival date of a ship
/// under way and every ship keeps its arrival date. When no ship under way
/// was due before today, the calendar does not go back; and arrived ships
/// are docked, so they do not arrive again.
pub proof fn law_arrival_keeps_etas_ahead<F: Fn(&StarSystem, GameDate) -> MarketUpdate>(
    a: &GameState,
    b: &GameState,
    r: Option<String>,
    coords: (i16, i16),
    reprice: &F,
    interest: int,
)
    requires
        arrival_outcome(a, b, r, coords, reprice, interest),
    ensures
        forall|i: int| 0 <= i < b.ships@.len() && under_way(b.ships@[i]) ==> b.date.le(#[trigger] b.ships@[i].eta),
        forall|i: int| 0 <= i < b.ships@.len() && due(a.ships@[i], b.date) ==> !under_way(#[trigger] b.ships@[i]),
        (forall|i: int| 0 <= i < a.ships@.len() && under_way(a.ships@[i]) ==> a.date.le(#[trigger] a.ships@[i].eta))
            ==> a.date.le(b.date),
{
    assert forall|i: int| 0 <= i < b.ships@.len() && under_way(b.ships@[i]) implies b.date.le(#[trigger] b.ships@[i].eta) by {
        assert(b.ships@[i].eta == a.ships@[i].eta);
        if due(a.ships@[i], b.date) {
            assert(!under_way(b.ships@[i]));
        }
        assert(under_way(a.ships@[i]));
    }
    if forall|i: int| 0 <= i < a.ships@.len() && under_way(a.ships@[i]) ==> a.date.le(#[trigger] a.ships@[i].eta) {
        let w = choose|w: int| 0 <= w < a.ships@.len() && #[trigger] due(a.ships@[w], b.date);
        assert(a.date.le(a.ships@[w].eta));
    }
}

/// Development only grows, and never beyond 15 points (60 quarter
/// points): a step from a score at or below the cap stays between that score
/// and the cap, and a fully developed system stays at the cap.
pub proof fn law_development_capped(q: int, inc: int)
    requires
        0 <= inc,
        i32::MIN <= q <= 60,
    ensures
        q <= develop_step(q, inc) <= 60,
        develop_step(60, inc) == 60,
{
}

/// The event log keeps the six latest events: recording an event into a log
/// of at most six keeps it at most six long, with the new event last and the
/// others in order.
pub proof fn law_log_keeps_latest(events: Seq<String>, msg: String)
    requires
        events.len() <= EVENT_LOG_LIMIT,
    ensures
        logged(events, msg).len() <= EVENT_LOG_LIMIT,
        logged(events, msg).last() == msg,
        logged(events, msg).len() == (if events.len() < EVENT_LOG_LIMIT { events.len() + 1 } else { events.len() }),
        forall|k: int| 0 <= k < logged(events, msg).len() - 1 ==> #[trigger] logged(events, msg)[k]
            == events[k + events.len() + 1 - logged(events, msg).len()],
{
}

/// A demo galaxy is fixed by its seed: two demo worlds built from one seed
/// start on the same date, with the same generator, the same systems (name,
/// class, development, position) and the same ships (name, place, course,
/// cash, hold and arrival date), and with the same settings.
pub proof fn law_demo_seed_fixes_world(a: GameState, b: GameState, seed: u64)
    requires
        demo_layout(a, seed),
        demo_layout(b, seed),
    ensures
        a.rng == b.rng,
        a.date == b.date,
        a.systems@.len() == b.systems@.len(),
        forall|i: int|
            0 <= i < a.systems@.len() ==> {
                let (x, y) = (#[trigger] a.systems@[i], b.systems@[i]);
                &&& x.id == y.id
                &&& x.name@ == y.name@
                &&& x.class == y.class
                &&& x.dev_score_quarters == y.dev_score_quarters
                &&& x.coords == y.coords
                &&& x.last_update == y.last_update
            },
        a.ships@.len() == b.ships@.len(),
        forall|i: int|
            0 <= i < a.ships@.len() ==> {
                let (x, y) = (#[trigger] a.ships@[i], b.ships@[i]);
                &&& x.id == y.id
                &&& x.name@ == y.name@
                &&& x.location == y.location
                &&& x.destination == y.destination
                &&& x.cash == y.cash
                &&& x.cargo == y.cargo
                &&& x.net_tonnage == y.net_tonnage
                &&& x.eta == y.eta
                &&& x.delay_weeks == y.delay_weeks
            },
        a.selected_system == b.selected_system && a.selected_ship == b.selected_ship
            && a.selected_good == b.selected_good,
        a.max_tonnage == b.max_tonnage && a.development_increment_quarters == b.development_increment_quarters,
        a.bank_balance == b.bank_balance && a.bank_last_date == b.bank_last_date,
        a.max_bid_rounds == b.max_bid_rounds,
{
    assert(a.ships@[0].cargo@ =~= b.ships@[0].cargo@);
    assert(a.ships@[1].cargo@ =~= b.ships@[1].cargo@);
}

/// Refreshing the highlights again before anything changes marks nothing
/// new: after a refresh that had an earlier picture of the game to compare
/// with, a second refresh keeps every highlight as it is.
pub proof fn law_second_refresh_keeps_highlights(a: App, b: App, c: App)
    requires
        highlights_refreshed(a, b),
        highlights_refreshed(b, c),
        a.prev_state is Some,
    ensures
        c.bank_hi == b.bank_hi,
        c.ship_cash_hi@ == b.ship_cash_hi@,
        c.ship_ton_hi@ == b.ship_ton_hi@,
        c.cargo_hi@.len() == b.cargo_hi@.len(),
        forall|i: int| 0 <= i < c.cargo_hi@.len() ==> (#[trigger] c.cargo_hi@[i])@ == b.cargo_hi@[i]@,
        c.stock_hi@.len() == b.stock_hi@.len(),
        forall|j: int| 0 <= j < c.stock_hi@.len() ==> (#[trigger] c.stock_hi@[j])@ == b.stock_hi@[j]@,
        c.price_hi@.len() == b.price_hi@.len(),
        forall|j: int| 0 <= j < c.price_hi@.len() ==> (#[trigger] c.price_hi@[j])@ == b.price_hi@[j]@,
{
    let st = a.state;
    let p = b.prev_state->0;
    assert(b.state == st);
    assert(c.ship_cash_hi@ =~= b.ship_cash_hi@);
    assert(c.ship_ton_hi@ =~= b.ship_ton_hi@);
    assert forall|i: int| 0 <= i < c.cargo_hi@.len() implies (#[trigger] c.cargo_hi@[i])@ == b.cargo_hi@[i]@ by {
        if i < st.ships@.len() {
            assert(p.ships@[i] == (st.ships@[i].cash, st.ships@[i].net_tonnage, st.ships@[i].cargo));
            assert(b.cargo_hi@[i]@.len() >= 6);
            assert(c.cargo_hi@[i]@ =~= b.cargo_hi@[i]@);
        }
    }
    assert forall|j: int| 0 <= j < c.stock_hi@.len() implies (#[trigger] c.stock_hi@[j])@ == b.stock_hi@[j]@ by {
        if j < st.systems@.len() {
            assert(p.systems@[j] == (st.systems@[j].stock, st.systems@[j].prices));
            assert(b.stock_hi@[j]@.len() >= 6);
            assert(c.stock_hi@[j]@ =~= b.stock_hi@[j]@);
        }
    }
    assert forall|j: int| 0 <= j < c.price_hi@.len() implies (#[trigger] c.price_hi@[j])@ == b.price_hi@[j]@ by {
        if j < st.systems@.len() {
            assert(p.systems@[j] == (st.systems@[j].stock, st.systems@[j].prices));
            assert(b.price_hi@[j]@.len() >= 6);
            assert(c.price_hi@[j]@ =~= b.price_hi@[j]@);
        }
    }
}

/// Adding days to a date moves it forward by exactly that many days and
/// lands on a valid day (1 to 360), never before where it started; adding
/// no days leaves a valid date as it is; and adding `a` days, then `b`,
/// is adding `a + b` days.
pub proof fn law_add_days(d: GameDate, a: u16, b: u16)
    requires
        d.day + a >= 1,
        d.year + (d.day + a + b) / 360 <= i32::MAX,
    ensures
        d.plus_days(a as int).day_number() == d.day_number() + a,
        1 <= d.plus_days(a as int).day <= 360,
        d.le(d.plus_days(a as int)),
        1 <= d.day <= 360 ==> d.plus_days(0) == d,
        a + b <= u16::MAX ==> d.plus_days(a as int).plus_days(b as int) == d.plus_days(a + b),
{
    lemma_add_days_counts(d, a as int);
    let e = d.plus_days(a as int);
    if a + b <= u16::MAX {
        lemma_add_days_counts(d, (a + b) as int);
        let f = d.plus_days((a + b) as int);
        assert(e.year + (e.day + b) / 360 == d.year + (d.day + a + b) / 360) by {
            assert(e.year * 360 + e.day + b == d.year * 360 + d.day + a + b);
            lemma_whole_years(e.year as int, e.day + b, d.year as int, d.day + a + b);
        }
        lemma_add_days_counts(e, b as int);
        let g = e.plus_days(b as int);
        lemma_order_matches_day_number(g, f);
    }
}

/// Days counted from two year marks agree on the whole years they reach.
proof fn lemma_whole_years(y1: int, t1: int, y2: int, t2: int)
    requires
        y1 * 360 + t1 == y2 * 360 + t2,
        t1 >= 0,
        t2 >= 0,
    ensures
        y1 + t1 / 360 == y2 + t2 / 360,
{
    let q = t2 / 360;
    let r = t2 % 360;
    vstd::arithmetic::div_mod::lemma_fundamental_div_mod(t2, 360);
    assert(t1 == (q + y2 - y1) * 360 + r) by (nonlinear_arith)
        requires
            y1 * 360 + t1 == y2 * 360 + t2,
            t2 == 360 * q + r,
    ;
    vstd::arithmetic::div_mod::lemma_fundamental_div_mod_converse_div(t1, 360, q + y2 - y1, r);
}

/// A change is shown for the highlight period and then fades: after a
/// refresh that finds the bank balance, or a ship's cash, moved since the
/// last picture, the change shows (with its amount) at every later tick up
/// to the end of the period and not after it; a figure that did not move
/// keeps the highlight it had.
pub proof fn law_highlight_lasts_its_period(a: App, b: App, c: App, i: int)
    requires
        a.wf(),
        a.prev_state is Some,
        highlights_refreshed(a, b),
        c == (App { ticks: c.ticks, ..b }),
    ensures
        ({
            let p = a.prev_state->0;
            let d = a.state.bank_balance - p.bank_balance;
            &&& d != 0 && c.ticks <= a.ticks + HIGHLIGHT_TICKS ==> c.bank_hi.is_active(c.ticks) && c.bank_hi.delta == d
            &&& d != 0 && c.ticks > a.ticks + HIGHLIGHT_TICKS ==> !c.bank_hi.is_active(c.ticks)
            &&& d == 0 ==> c.bank_hi == a.bank_hi
        }),
        ({
            let p = a.prev_state->0;
            0 <= i < a.state.ships@.len() && i < p.ships@.len() ==> {
                let d = a.state.ships@[i].cash - p.ships@[i].0;
                &&& d != 0 && c.ticks <= a.ticks + HIGHLIGHT_TICKS ==> c.ship_cash_hi@[i].is_active(c.ticks)
                    && c.ship_cash_hi@[i].delta == d
                &&& d != 0 && c.ticks > a.ticks + HIGHLIGHT_TICKS ==> !c.ship_cash_hi@[i].is_active(c.ticks)
                &&& d == 0 && i < a.ship_cash_hi@.len() ==> c.ship_cash_hi@[i] == a.ship_cash_hi@[i]
            }
        }),
{
    let p = a.prev_state->0;
    assert(p.in_range());
    if 0 <= i < a.state.ships@.len() && i < p.ships@.len() {
        assert(credits_ok(p.ships@[i].0 as int));
    }
}

/// A sale that the negotiation opened for is not refused when it is
/// settled: the settlement takes the same limit on units (twice what the
/// system is short of) and the same checks on the hold as the opening did,
/// so with the state unchanged the agreed sale goes through.
pub proof fn law_opened_sale_settles(st: GameState, session: TradeSession)
    requires
        session.good_idx < GOODS_COUNT,
        st.session_refusal(
            TradeKind::SellToSystem,
            session.ship_id as int,
            session.system_id as int,
            session.good_idx as int,
            session.qty as int,
        ) is None,
    ensures
        st.sale_refusal(session) is None,
{
}

/// A purchase that the negotiation opened for is not refused when it is
/// settled at a total the ship can pay; and a settlement is refused for
/// want of cash only when the ship's cash is below the agreed total (the
/// listed price plays no part).
pub proof fn law_opened_purchase_settles(st: GameState, session: TradeSession, total: int)
    requires
        session.good_idx < GOODS_COUNT,
    ensures
        st.session_refusal(
            TradeKind::BuyFromSystem,
            session.ship_id as int,
            session.system_id as int,
            session.good_idx as int,
            session.qty as int,
        ) is None && st.ships@[session.ship_id as int].cash >= total ==> st.purchase_refusal(session, total) is None,
        st.purchase_refusal(session, total) == Some("Not enough cash"@) ==> st.ships@[session.ship_id as int].cash < total,
{
    reveal_strlit("Not enough cash");
    reveal_strlit("Bad ship");
    reveal_strlit("Bad system");
    reveal_strlit("Not enough stock");
    reveal_strlit("Exceeds tonnage limit");
    assert("Bad ship"@ != "Not enough cash"@) by {
        assert("Bad ship"@.len() != "Not enough cash"@.len());
    }
    assert("Bad system"@ != "Not enough cash"@) by {
        assert("Bad system"@.len() != "Not enough cash"@.len());
    }
    assert("Not enough stock"@ != "Not enough cash"@) by {
        assert("Not enough stock"@.len() != "Not enough cash"@.len());
    }
    assert("Exceeds tonnage limit"@ != "Not enough cash"@) by {
        assert("Exceeds tonnage limit"@.len() != "Not enough cash"@.len());
    }
}

/// Each visit develops a system that is not fully developed: below 15
/// points (60 quarter points), a visit adds the development increment, up
/// to the cap of 15 points.
pub proof fn law_visit_develops(q: int, inc: int)
    requires
        i32::MIN <= q < 60,
        inc > 0,
    ensures
        develop_step(q, inc) == (if q + inc >= 60 { 60 } else { q + inc }),
        develop_step(q, inc) > q,
{
}

/// The raw class score of a system (Class I 15, II 10, III 5, IV 0) added
/// to a running total.
pub open spec fn add_class_score(acc: int, s: StarSystem) -> int {
    acc + s.class.score_of()
}

/// The class scores of the systems add up to `class_score_total`.
proof fn lemma_class_score_total_sums(systems: Seq<StarSystem>)
    ensures
        class_score_total(systems) == systems.fold_left(0int, |acc: int, s: StarSystem| add_class_score(acc, s)),
        class_score_total(systems) >= 0,
    decreases systems.len(),
{
    if systems.len() > 0 {
        lemma_class_score_total_sums(systems.drop_last());
    }
}

/// A new frontier system is due exactly when the galaxy has room for one
/// (fewer than 12 systems) and the average raw class score of its systems
/// (Class I 15, II 10, III 5, IV 0), rounded down, is at least 10.
pub proof fn law_frontier_due_at_average_ten(systems: Seq<StarSystem>)
    ensures
        spawn_due(systems) <==> {
            let total = systems.fold_left(0int, |acc: int, s: StarSystem| add_class_score(acc, s));
            &&& 0 < systems.len() < MAX_SYSTEMS
            &&& total / (systems.len() as int) >= 10
        },
{
    lemma_class_score_total_sums(systems);
    let total = class_score_total(systems);
    let n = systems.len() as int;
    if n > 0 {
        vstd::arithmetic::div_mod::lemma_fundamental_div_mod(total, n);
        let q = total / n;
        let r = total % n;
        assert(total >= 10 * n <==> q >= 10) by (nonlinear_arith)
            requires
                total == n * q + r,
                0 <= r < n,
                n > 0,
        ;
    }
}

/// On the star map, Right selects the next system and Left the previous
/// one, wrapping around (when no command is bound to these keys); so Right
/// then Left comes back to the system selected before.
pub proof fn law_map_arrows_step_through_systems(a: App, b: App, c: App, r1: Effect, r2: Effect)
    requires
        overlay_step(a, b, Key::Right, r1),
        overlay_step(b, c, Key::Left, r2),
        0 < a.state.systems@.len() <= i32::MAX,
        a.state.selected_system < a.state.systems@.len(),
        Key::Right != a.keybinds.key_of(Command::Quit),
        Key::Right != a.keybinds.key_of(Command::Reset),
        Key::Right != a.keybinds.key_of(Command::StarMap),
        Key::Right != a.keybinds.key_of(Command::Report),
        Key::Right != a.keybinds.key_of(Command::Help),
        Key::Right != a.keybinds.key_of(Command::HelpAlt),
        Key::Left != a.keybinds.key_of(Command::Quit),
        Key::Left != a.keybinds.key_of(Command::Reset),
        Key::Left != a.keybinds.key_of(Command::StarMap),
        Key::Left != a.keybinds.key_of(Command::Report),
        Key::Left != a.keybinds.key_of(Command::Help),
        Key::Left != a.keybinds.key_of(Command::HelpAlt),
    ensures
        b.state.selected_system == (a.state.selected_system + 1) % (a.state.systems@.len() as int),
        c.state.selected_system == a.state.selected_system,
        b.state.selected_ship == a.state.selected_ship && c.state.selected_ship == a.state.selected_ship,
        r1 == Effect::Nothing && r2 == Effect::Nothing,
{
    let n = a.state.systems@.len() as int;
    let s0 = a.state.selected_system;
    assert((s0 as i32) as int == s0 as int);
    law_cycle_round_trip(s0, 1i8, n);
    let s1 = b.state.selected_system;
    assert(s1 as int == cycled(s0, 1i8, n));
    assert((s1 as i32) as int == s1 as int);
}

/// The trading rules for a ship docked at a system: a sale of `qty`
/// units opens, and settles, exactly when the hold has them, the system is
/// short of the good and wants at most twice its shortfall, and (to open)
/// it quotes a price; a purchase opens exactly when the system has the
/// stock, the hold has room for heavy goods, and the good is for sale.
pub proof fn law_trading_rules(st: GameState, session: TradeSession)
    requires
        session.good_idx < GOODS_COUNT,
        session.qty > 0,
        session.ship_id < st.ships@.len(),
        session.system_id < st.systems@.len(),
        st.ships@[session.ship_id as int].location == session.system_id,
    ensures
        ({
            let ship = st.ships@[session.ship_id as int];
            let sys = st.systems@[session.system_id as int];
            let g = session.good_idx as int;
            let q = session.qty as int;
            &&& st.session_refusal(TradeKind::SellToSystem, session.ship_id as int, session.system_id as int, g, q) is None
                <==> (ship.cargo@[g] >= q && sys.stock@[g] < 0 && q <= 2 * -sys.stock@[g] && sys.prices@[g] > 0)
            &&& st.sale_refusal(session) is None <==> (ship.cargo@[g] >= q && q <= 2 * -sys.stock@[g])
            &&& st.session_refusal(TradeKind::BuyFromSystem, session.ship_id as int, session.system_id as int, g, q) is None
                <==> (sys.stock@[g] >= q && (g < HEAVY_GOODS ==> ship.net_tonnage + q <= st.max_tonnage) && sys.prices@[g] > 0)
        }),
{
}

/// On the star map, Tab (or Down) selects the next ship and Shift-Tab (or
/// Up) the previous one, wrapping around (when no command is bound to these
/// keys), leaving the selected system alone.
pub proof fn law_map_tab_steps_through_ships(a: App, b: App, c: App, r1: Effect, r2: Effect)
    requires
        overlay_step(a, b, Key::Tab, r1),
        overlay_step(b, c, Key::BackTab, r2),
        0 < a.state.ships@.len() <= i32::MAX,
        a.state.selected_ship < a.state.ships@.len(),
        Key::Tab != a.keybinds.key_of(Command::Quit),
        Key::Tab != a.keybinds.key_of(Command::Reset),
        Key::Tab != a.keybinds.key_of(Command::StarMap),
        Key::Tab != a.keybinds.key_of(Command::Report),
        Key::Tab != a.keybinds.key_of(Command::Help),
        Key::Tab != a.keybinds.key_of(Command::HelpAlt),
        Key::BackTab != a.keybinds.key_of(Command::Quit),
        Key::BackTab != a.keybinds.key_of(Command::Reset),
        Key::BackTab != a.keybinds.key_of(Command::StarMap),
        Key::BackTab != a.keybinds.key_of(Command::Report),
        Key::BackTab != a.keybinds.key_of(Command::Help),
        Key::BackTab != a.keybinds.key_of(Command::HelpAlt),
    ensures
        b.state.selected_ship == (a.state.selected_ship + 1) % (a.state.ships@.len() as int),
        c.state.selected_ship == a.state.selected_ship,
        b.state.selected_system == a.state.selected_system && c.state.selected_system == a.state.selected_system,
        r1 == Effect::Nothing && r2 == Effect::Nothing,
{
    let n = a.state.ships@.len() as int;
    let s0 = a.state.selected_ship;
    assert((s0 as i32) as int == s0 as int);
    law_cycle_round_trip(s0, 1i8, n);
    let s1 = b.state.selected_ship;
    assert(s1 as int == cycled(s0, 1i8, n));
    assert((s1 as i32) as int == s1 as int);
}

} // verus!
