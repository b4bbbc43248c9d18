use vstd::prelude::*;

use crate::date::GameDate;
use crate::market::{
    MarketUpdate, develop_step, frontier_notice, frontier_system, repriced, repriced_by, spawn_due,
};
use crate::text::{decimal, push_decimal};
use crate::world::{GameState, MAX_SYSTEMS, Ship, StarSystem, class_for_quarters};

verus! {

/// A ship is under way: bound for a system other than the one it is at.
pub open spec fn under_way(s: Ship) -> bool {
    s.location != s.destination
}

/// A ship is due on `when`: under way, with that arrival date.
pub open spec fn due(s: Ship, when: GameDate) -> bool {
    under_way(s) && s.eta == when
}

/// Some ship is under way.
pub open spec fn has_voyages(ships: Seq<Ship>) -> bool {
    exists|i: int| 0 <= i < ships.len() && under_way(#[trigger] ships[i])
}

/// `d` is the earliest arrival date among the ships under way.
pub open spec fn is_earliest_eta(ships: Seq<Ship>, d: GameDate) -> bool {
    &&& exists|i: int| 0 <= i < ships.len() && #[trigger] due(ships[i], d)
    &&& forall|i: int| 0 <= i < ships.len() && under_way(ships[i]) ==> d.le(#[trigger] ships[i].eta)
}

/// Indices, in increasing order, of the first `n` ships that arrive on `when`.
pub open spec fn arrivals_upto(ships: Seq<Ship>, when: GameDate, n: int) -> Seq<usize>
    decreases n,
{
    if n <= 0 {
        Seq::empty()
    } else {
        let p = arrivals_upto(ships, when, n - 1);
        if due(ships[n - 1], when) {
            p.push((n - 1) as usize)
        } else {
            p
        }
    }
}

/// Indices, in increasing order, of the ships that arrive on `when`.
pub open spec fn arrivals(ships: Seq<Ship>, when: GameDate) -> Seq<usize> {
    arrivals_upto(ships, when, ships.len() as int)
}

/// Ship `a` after arriving: at its destination.
pub open spec fn arrived(a: Ship) -> Ship {
    Ship { location: a.destination, ..a }
}

/// How many of the arrivals `arr` put a ship at system `j`.
pub open spec fn visits(ships: Seq<Ship>, arr: Seq<usize>, j: int) -> nat
    decreases arr.len(),
{
    if arr.len() == 0 {
        0
    } else {
        visits(ships, arr.drop_last(), j) + (if ships[arr.last() as int].destination == j {
            1nat
        } else {
            0nat
        })
    }
}

/// A development score in quarter points after `k` development steps.
pub open spec fn developed_times(q: int, inc: int, k: nat) -> int
    decreases k,
{
    if k == 0 {
        q
    } else {
        develop_step(developed_times(q, inc, (k - 1) as nat), inc)
    }
}

/// The stock and prices of `s` are what `reprice` returned for some system
/// on `date`.
pub open spec fn priced_by<F: Fn(&StarSystem, GameDate) -> MarketUpdate>(reprice: &F, s: StarSystem, date: GameDate) -> bool {
    exists|s1: StarSystem, upd: MarketUpdate|
        #[trigger] reprice.ensures((&s1, date), upd) && s.stock == upd.stock && s.prices == upd.prices
}

/// `s2` is `s1` after `k` visits on `date`: unchanged without visits;
/// otherwise developed `k` times, updated on `date`, classed by its new
/// score, with stock and prices from a repricing.
pub open spec fn after_visits<F: Fn(&StarSystem, GameDate) -> MarketUpdate>(
    s1: StarSystem,
    s2: StarSystem,
    k: nat,
    inc: int,
    date: GameDate,
    reprice: &F,
) -> bool {
    if k == 0 {
        s2 == s1
    } else {
        &&& s2.dev_score_quarters == developed_times(s1.dev_score_quarters as int, inc, k)
        &&& s2.class == class_for_quarters(s2.dev_score_quarters as int)
        &&& s2.last_update == date
        &&& s2.id == s1.id
        &&& s2.name == s1.name
        &&& s2.coords == s1.coords
        &&& priced_by(reprice, s2, date)
    }
}

/// The report line of a ship arriving at a system named `system_name`.
pub open spec fn arrival_line(ship: Ship, system_name: Seq<char>) -> Seq<char> {
    ship.name@ + " arrived at "@ + system_name + (if ship.delay_weeks > 0 {
        " ("@ + decimal(ship.delay_weeks as int) + " wks late)"@
    } else {
        Seq::<char>::empty()
    })
}

/// The report lines of the arrivals `arr`.
pub open spec fn arrival_lines(ships: Seq<Ship>, systems: Seq<StarSystem>, arr: Seq<usize>) -> Seq<Seq<char>> {
    arr.map_values(|i: usize| arrival_line(ships[i as int], systems[ships[i as int].destination as int].name@))
}

/// Lines joined by `" | "`.
pub open spec fn joined(lines: Seq<Seq<char>>) -> Seq<char>
    decreases lines.len(),
{
    if lines.len() == 0 {
        Seq::empty()
    } else if lines.len() == 1 {
        lines[0]
    } else {
        joined(lines.drop_last()) + " | "@ + lines.last()
    }
}

/// Membership in the arrivals: exactly the ships due on `when`.
pub proof fn lemma_arrivals_upto(ships: Seq<Ship>, when: GameDate, n: int)
    requires
        0 <= n <= ships.len(),
        ships.len() <= usize::MAX,
    ensures
        forall|k: int| 0 <= k < arrivals_upto(ships, when, n).len() ==> #[trigger] arrivals_upto(ships, when, n)[k] < n,
        forall|i: int| 0 <= i < ships.len() ==> (arrivals_upto(ships, when, n).contains(i as usize) <==> (i < n
            && #[trigger] due(ships[i], when))),
    decreases n,
{
    if n > 0 {
        lemma_arrivals_upto(ships, when, n - 1);
        let p = arrivals_upto(ships, when, n - 1);
        if due(ships[n - 1], when) {
            assert forall|i: int| 0 <= i < ships.len() implies (p.push((n - 1) as usize).contains(i as usize) <==> (
            i < n && #[trigger] due(ships[i], when))) by {
                if i < n - 1 && due(ships[i], when) {
                    assert(p.contains(i as usize));
                    let k = choose|k: int| 0 <= k < p.len() && #[trigger] p[k] == i as usize;
                    assert(p.push((n - 1) as usize)[k] == i as usize);
                }
                if p.push((n - 1) as usize).contains(i as usize) && i != n - 1 {
                    let k = choose|k: int| 0 <= k < p.len() + 1 && #[trigger] p.push((n - 1) as usize)[k] == i as usize;
                    assert(k < p.len());
                    assert(p.contains(i as usize));
                }
                if i == n - 1 {
                    assert(p.push((n - 1) as usize)[p.len() as int] == (n - 1) as usize);
                }
            }
        }
    }
}

/// What advancing to the next arrival does to a game `a` with ships under
/// way, giving `b` and the report `r`: the calendar jumps to the earliest
/// arrival date of a ship under way; every ship under way due then reaches
/// its destination; each system reached is repriced and developed once per
/// arriving ship; a new frontier system at `coords` may then be discovered;
/// the bank credits `interest`, the interest for the time that passed; the
/// report joins one line per arrival and the discovery notice with `" | "`.
pub open spec fn arrival_outcome<F: Fn(&StarSystem, GameDate) -> MarketUpdate>(
    a: &GameState,
    b: &GameState,
    r: Option<String>,
    coords: (i16, i16),
    reprice: &F,
    interest: int,
) -> bool {
    let next = b.date;
    let arr = arrivals(a.ships@, next);
    let n = a.systems@.len() as int;
    let spawned = spawn_due(b.systems@.subrange(0, n));
    let lines = arrival_lines(a.ships@, a.systems@, arr);
    &&& is_earliest_eta(a.ships@, next)
    &&& b.ships@.len() == a.ships@.len()
    &&& forall|i: int| 0 <= i < a.ships@.len() ==> #[trigger] b.ships@[i] == (if due(a.ships@[i], next) {
        arrived(a.ships@[i])
    } else {
        a.ships@[i]
    })
    &&& b.systems@.len() == n + (if spawned { 1int } else { 0int })
    &&& forall|j: int| 0 <= j < n ==> after_visits(
        a.systems@[j],
        #[trigger] b.systems@[j],
        visits(a.ships@, arr, j),
        a.development_increment_quarters as int,
        next,
        reprice,
    )
    &&& spawned ==> frontier_system(b.systems@[n], n, coords, next, reprice)
    &&& r is Some
    &&& r.unwrap()@ == joined(if spawned { lines.push(frontier_notice(n, coords)) } else { lines })
    &&& b.selected_system == a.selected_system
    &&& b.selected_ship == a.selected_ship
    &&& b.selected_good == a.selected_good
    &&& b.max_tonnage == a.max_tonnage
    &&& b.development_increment_quarters == a.development_increment_quarters
    &&& b.bank_balance == (if next.day_number() > a.bank_last_date.day_number() && a.bank_balance > 0 {
        a.bank_balance + interest
    } else {
        a.bank_balance as int
    })
    &&& b.bank_last_date == next
    &&& b.max_bid_rounds == a.max_bid_rounds
}

impl GameState {
    /// Advances the calendar to the next arrival. Every ship due on the
    /// earliest arrival date reaches its destination, whose market is repriced
    /// for that date by `reprice` and whose development grows; then, if the
    /// galaxy is developed enough, a new frontier system is discovered at
    /// `frontier_coords`; the bank credits `interest`, the interest due for
    /// the time that passed (see `accrue_interest`). Returns the report, or
    /// `None`, changing nothing, when no ship is under way.
    pub fn advance_to_next_arrival<F: Fn(&StarSystem, GameDate) -> MarketUpdate>(
        &mut self,
        frontier_coords: (i16, i16),
        reprice: &F,
        interest: i64,
    ) -> (r: Option<String>)
        requires
            old(self).wf(),
            old(self).systems@.len() <= MAX_SYSTEMS,
            forall|s: &StarSystem, d: GameDate| #[trigger] reprice.requires((s, d)),
            old(self).bank_balance > 0 ==> old(self).bank_balance + interest <= i64::MAX,
        ensures
            !has_voyages(old(self).ships@) ==> r is None && *final(self) == *old(self),
            has_voyages(old(self).ships@) ==> arrival_outcome(
                old(self),
                final(self),
                r,
                frontier_coords,
                reprice,
                interest as int,
            ),
            final(self).wf(),
    {
        let next = self.next_arrival_date();
        let next_eta = match next {
            Some(d) => d,
            None => {
                return None;
            },
        };
        let nships = self.ships.len();
        let ghost a = *self;
        self.date = next_eta;
        let arriving = self.ships_arriving(next_eta);
        proof {
            lemma_arrivals_upto(a.ships@, next_eta, a.ships@.len() as int);
            let w = choose|w: int| 0 <= w < a.ships@.len() && #[trigger] due(a.ships@[w], next_eta);
            assert(arriving@.contains(w as usize));
        }
        let ghost n = a.systems@.len() as int;
        let ghost inc = a.development_increment_quarters as int;
        let mut msg = String::new();
        let count = arriving.len();
        let mut k: usize = 0;
        while k < count
            invariant
                0 <= k <= count,
                count == arriving@.len(),
                count > 0,
                arriving@ == arrivals(a.ships@, next_eta),
                forall|t: int| 0 <= t < count ==> #[trigger] arriving@[t] < a.ships@.len(),
                a.wf(),
                forall|s: &StarSystem, d: GameDate| #[trigger] reprice.requires((s, d)),
                n == a.systems@.len(),
                inc == a.development_increment_quarters,
                self.date == next_eta,
                self.ships@.len() == a.ships@.len(),
                forall|i: int| 0 <= i < a.ships@.len() ==> #[trigger] self.ships@[i] == (
                    if arriving@.subrange(0, k as int).contains(i as usize) {
                        arrived(a.ships@[i])
                    } else {
                        a.ships@[i]
                    }),
                self.systems@.len() == n,
                forall|j: int| 0 <= j < n ==> after_visits(
                    a.systems@[j],
                    #[trigger] self.systems@[j],
                    visits(a.ships@, arriving@.subrange(0, k as int), j),
                    inc,
                    next_eta,
                    reprice,
                ),
                msg@ == joined(arrival_lines(a.ships@, a.systems@, arriving@.subrange(0, k as int))),
                self.selected_system == a.selected_system,
                self.selected_ship == a.selected_ship,
                self.selected_good == a.selected_good,
                self.max_tonnage == a.max_tonnage,
                self.development_increment_quarters == a.development_increment_quarters,
                self.bank_balance == a.bank_balance,
                self.bank_last_date == a.bank_last_date,
                self.max_bid_rounds == a.max_bid_rounds,
                self.rng == a.rng,
            decreases count - k,
        {
            let ship_id = arriving[k];
            let ghost processed = arriving@.subrange(0, k as int);
            let ghost d = a.ships@[ship_id as int].destination as int;
            proof {
                assert(arriving@.subrange(0, k + 1) =~= processed.push(ship_id));
                assert(processed.push(ship_id).drop_last() =~= processed);
                assert(a.ships@[ship_id as int].destination < a.systems@.len());
            }
            let ghost s_before = self.systems@[d];
            let ghost ships_before = self.ships@;
            let destination = self.ships[ship_id].destination;
            self.ships[ship_id].location = destination;
            let delay_weeks = self.ships[ship_id].delay_weeks;
            let today = self.date;
            let ghost mid = *self;
            self.update_system_for_date(destination, today, reprice);
            let ghost s_priced = self.systems@[d];
            self.increment_development(destination);
            proof {
                let v = visits(a.ships@, processed, d);
                assert(visits(a.ships@, processed.push(ship_id), d) == v + 1);
                assert forall|j: int| 0 <= j < n implies after_visits(
                    a.systems@[j],
                    #[trigger] self.systems@[j],
                    visits(a.ships@, processed.push(ship_id), j),
                    inc,
                    next_eta,
                    reprice,
                ) by {
                    if j != d {
                        assert(visits(a.ships@, processed.push(ship_id), j) == visits(a.ships@, processed, j));
                        assert(self.systems@[j] == mid.systems@[j]);
                    } else {
                        assert(mid.systems@[d] == s_before);
                        let upd = choose|upd: MarketUpdate| #[trigger] reprice.ensures((&s_before, today), upd)
                            && repriced(s_before, s_priced, today, upd);
                        assert(reprice.ensures((&s_before, next_eta), upd));
                        assert(priced_by(reprice, self.systems@[j], next_eta));
                        let s2 = self.systems@[j];
                        let s1 = a.systems@[j];
                        if v == 0 {
                            assert(s_before == s1);
                        }
                        assert(s_before.dev_score_quarters == developed_times(s1.dev_score_quarters as int, inc, v));
                        assert(s2.dev_score_quarters == developed_times(s1.dev_score_quarters as int, inc, v + 1));
                        assert(s2.class == class_for_quarters(s2.dev_score_quarters as int));
                        assert(s2.last_update == next_eta);
                        assert(s2.id == s1.id);
                        assert(s2.name == s1.name);
                        assert(s2.coords == s1.coords);
                    }
                }
                assert forall|i: int| 0 <= i < a.ships@.len() implies #[trigger] self.ships@[i] == (
                    if processed.push(ship_id).contains(i as usize) {
                        arrived(a.ships@[i])
                    } else {
                        a.ships@[i]
                    }) by {
                    if i == ship_id {
                        assert(processed.push(ship_id)[processed.len() as int] == ship_id);
                    } else {
                        assert(self.ships@[i] == ships_before[i]);
                        if processed.contains(i as usize) {
                            let t = choose|t: int| 0 <= t < processed.len() && #[trigger] processed[t] == i as usize;
                            assert(processed.push(ship_id)[t] == i as usize);
                        }
                        if processed.push(ship_id).contains(i as usize) {
                            let t = choose|t: int| 0 <= t < processed.len() + 1 && #[trigger] processed.push(ship_id)[t] == i as usize;
                            assert(i < self.ships.len());
                            assert(i as usize != ship_id);
                            assert(t < processed.len());
                            assert(processed[t] == i as usize);
                        }
                    }
                }
            }
            let ghost line = arrival_line(a.ships@[ship_id as int], a.systems@[d].name@);
            let ghost msg_before = msg@;
            if k > 0 {
                msg.append(" | ");
            }
            msg.append(self.ships[ship_id].name.as_str());
            msg.append(" arrived at ");
            msg.append(self.systems[destination].name.as_str());
            if delay_weeks > 0 {
                msg.append(" (");
                push_decimal(&mut msg, delay_weeks as i64);
                msg.append(" wks late)");
            }
            proof {
                let lines0 = arrival_lines(a.ships@, a.systems@, processed);
                let lines1 = arrival_lines(a.ships@, a.systems@, processed.push(ship_id));
                assert(lines1 =~= lines0.push(line));
                assert(lines1.drop_last() =~= lines0);
                if k > 0 {
                    assert(msg@ =~= msg_before + " | "@ + line);
                } else {
                    assert(processed.len() == 0);
                    assert(lines0.len() == 0);
                    assert(msg_before =~= Seq::<char>::empty());
                    assert(msg@ =~= line);
                }
            }
            k = k + 1;
        }
        proof {
            assert(arriving@.subrange(0, count as int) =~= arriving@);
        }
        let ghost pre_spawn = *self;
        let spawn = self.maybe_spawn_new_star(frontier_coords, reprice);
        match spawn {
            Some(notice) => {
                let ghost msg_before = msg@;
                msg.append(" | ");
                msg.append(notice.as_str());
                proof {
                    let lines = arrival_lines(a.ships@, a.systems@, arriving@);
                    assert(lines.push(frontier_notice(n, frontier_coords)).drop_last() =~= lines);
                    assert(self.systems@.subrange(0, n) == pre_spawn.systems@);
                }
            },
            None => {},
        }
        proof {
            assert(self.systems@.subrange(0, n) =~= pre_spawn.systems@);
            assert forall|i: int| 0 <= i < a.ships@.len() implies #[trigger] self.ships@[i] == (
                if due(a.ships@[i], next_eta) {
                    arrived(a.ships@[i])
                } else {
                    a.ships@[i]
                }) by {
                assert(pre_spawn.ships@[i] == self.ships@[i]);
            }
            assert forall|j: int| 0 <= j < n implies after_visits(
                a.systems@[j],
                #[trigger] self.systems@[j],
                visits(a.ships@, arriving@, j),
                inc,
                next_eta,
                reprice,
            ) by {
                assert(self.systems@[j] == pre_spawn.systems@[j]);
            }
            assert forall|i: int| #![trigger self.ships@[i]] 0 <= i < self.ships@.len() implies self.ships@[i].location < self.systems@.len()
                && self.ships@[i].destination < self.systems@.len() by {
                assert(a.ships@[i].location < a.systems@.len());
            }
        }
        self.accrue_interest(interest);
        Some(msg)
    }

    /// The date of the next arrival: the earliest arrival date of a ship
    /// under way, or `None` when no ship is under way.
    pub fn next_arrival_date(&self) -> (r: Option<GameDate>)
        ensures
            r is None <==> !has_voyages(self.ships@),
            r matches Some(d) ==> is_earliest_eta(self.ships@, d),
    {
        let n = self.ships.len();
        let mut best: Option<GameDate> = None;
        let ghost mut wi: int = 0;
        let mut i: usize = 0;
        while i < n
            invariant
                i <= n,
                n == self.ships@.len(),
                best is None <==> !(exists|k: int| 0 <= k < i && under_way(#[trigger] self.ships@[k])),
                best matches Some(d) ==> 0 <= wi < i && due(self.ships@[wi], d),
                best matches Some(d) ==> (forall|k: int| 0 <= k < i && under_way(self.ships@[k]) ==> d.le(
                    #[trigger] self.ships@[k].eta,
                )),
            decreases n - i,
        {
            let s = &self.ships[i];
            if s.location != s.destination {
                let e = s.eta;
                match best {
                    None => {
                        best = Some(e);
                        proof {
                            wi = i as int;
                        }
                    },
                    Some(b) => {
                        if e.precedes(b) {
                            best = Some(e);
                            proof {
                                wi = i as int;
                            }
                        }
                    },
                }
            }
            i = i + 1;
        }
        proof {
            if best is Some {
                assert(due(self.ships@[wi], best.unwrap()));
            }
        }
        best
    }

    /// Indices of the ships due on `when`, in increasing order.
    fn ships_arriving(&self, when: GameDate) -> (r: Vec<usize>)
        ensures
            r@ == arrivals(self.ships@, when),
    {
        let mut r: Vec<usize> = Vec::new();
        let n = self.ships.len();
        let mut i: usize = 0;
        while i < n
            invariant
                i <= n,
                n == self.ships@.len(),
                r@ == arrivals_upto(self.ships@, when, i as int),
            decreases n - i,
        {
            if self.ships[i].eta == when && self.ships[i].location != self.ships[i].destination {
                r.push(i);
            }
            i = i + 1;
        }
        r
    }
}

} // verus!
