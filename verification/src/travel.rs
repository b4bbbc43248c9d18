use vstd::prelude::*;

use crate::date::GameDate;
use crate::text::{decimal, push_decimal};
use crate::world::{GameState, Ship};

verus! {

/// How long a voyage takes: whole days at cruising speed, then up to two
/// delays of one to three weeks each (0 meaning no delay). The days come
/// from the distance and the ship's speed, the delays from chance; the
/// program that drives the game works both out.
#[derive(Debug, Clone, Copy, PartialEq, Eq, Structural)]
pub struct Travel {
    pub base_days: u16,
    pub first_delay_weeks: u8,
    pub second_delay_weeks: u8,
}

impl Travel {
    /// Delays of at most three weeks each, as the game draws them.
    pub open spec fn valid(self) -> bool {
        self.first_delay_weeks <= 3 && self.second_delay_weeks <= 3
    }

    /// The arrival date of a voyage that starts on `start`.
    pub open spec fn eta_from(self, start: GameDate) -> GameDate {
        let e1 = start.plus_days(self.base_days as int);
        let e2 = if self.first_delay_weeks > 0 {
            e1.plus_days(7 * self.first_delay_weeks)
        } else {
            e1
        };
        if self.second_delay_weeks > 0 {
            e2.plus_days(7 * self.second_delay_weeks)
        } else {
            e2
        }
    }

    /// Total weeks of delay.
    pub open spec fn delay_total(self) -> int {
        self.first_delay_weeks + self.second_delay_weeks
    }
}

/// `b` is ship `a` bound for `destination`, arriving on `eta` with `delay`
/// weeks of delay, and otherwise unchanged.
pub open spec fn ship_routed(a: Ship, b: Ship, destination: usize, eta: GameDate, delay: int) -> bool {
    &&& b.destination == destination
    &&& b.eta == eta
    &&& b.delay_weeks == delay
    &&& b.id == a.id
    &&& b.name == a.name
    &&& b.location == a.location
    &&& b.cash == a.cash
    &&& b.cargo == a.cargo
    &&& b.net_tonnage == a.net_tonnage
}

/// `b` is `a` with at most ship `ship` changed.
pub open spec fn only_ship_changed(a: &GameState, b: &GameState, ship: int) -> bool {
    &&& b.ships@.len() == a.ships@.len()
    &&& forall|i: int| 0 <= i < a.ships@.len() && i != ship ==> #[trigger] b.ships@[i] == a.ships@[i]
    &&& b.systems == a.systems
    &&& b.date == a.date
    &&& b.selected_system == a.selected_system
    &&& b.selected_ship == a.selected_ship
    &&& b.selected_good == a.selected_good
    &&& b.max_tonnage == a.max_tonnage
    &&& b.development_increment_quarters == a.development_increment_quarters
    &&& b.bank_balance == a.bank_balance
    &&& b.bank_last_date == a.bank_last_date
    &&& b.max_bid_rounds == a.max_bid_rounds
    &&& b.rng == a.rng
}

impl GameState {
    /// The date is far enough from the end of the calendar for any voyage
    /// to be dated.
    pub open spec fn calendar_room(&self) -> bool {
        self.date.year <= i32::MAX - 400
    }

    /// A voyage of ship `ship_id` to `destination` is to be planned: both
    /// exist and the ship is elsewhere.
    pub open spec fn needs_travel(&self, ship_id: int, destination: int) -> bool {
        &&& 0 <= ship_id < self.ships@.len()
        &&& 0 <= destination < self.systems@.len()
        &&& self.ships@[ship_id].location != destination
    }

    /// What a voyage plan depends on: the coordinates of the ship's system
    /// and of its destination, when a voyage is to be planned.
    pub fn route_request(&self, ship_id: usize, destination: usize) -> (r: Option<((i16, i16), (i16, i16))>)
        requires
            self.wf(),
        ensures
            r is Some <==> self.needs_travel(ship_id as int, destination as int),
            r matches Some(c) ==> c == (
                self.systems@[self.ships@[ship_id as int].location as int].coords,
                self.systems@[destination as int].coords,
            ),
    {
        if ship_id >= self.ships.len() || destination >= self.systems.len() {
            return None;
        }
        let loc = self.ships[ship_id].location;
        if loc == destination {
            return None;
        }
        assert(self.ships@[ship_id as int].location < self.systems@.len());
        Some((self.systems[loc].coords, self.systems[destination].coords))
    }

    /// Sends ship `ship_id` towards `destination` on the voyage `travel`: the
    /// ship's arrival date is today plus the voyage's days and delays. A ship
    /// already there is simply marked as arrived today. Nothing happens when
    /// the ship or the destination does not exist.
    pub fn schedule_route(&mut self, ship_id: usize, destination: usize, travel: Travel)
        requires
            old(self).calendar_room(),
            travel.valid(),
        ensures
            only_ship_changed(old(self), final(self), ship_id as int),
            !(ship_id < old(self).ships@.len() && destination < old(self).systems@.len()) ==> *final(self) == *old(self),
            ship_id < old(self).ships@.len() && destination < old(self).systems@.len() ==> {
                let a = old(self).ships@[ship_id as int];
                if a.location == destination {
                    ship_routed(a, final(self).ships@[ship_id as int], destination, old(self).date, 0)
                } else {
                    ship_routed(
                        a,
                        final(self).ships@[ship_id as int],
                        destination,
                        travel.eta_from(old(self).date),
                        travel.delay_total(),
                    )
                }
            },
    {
        if ship_id >= self.ships.len() {
            return;
        }
        if destination >= self.systems.len() {
            return;
        }
        if self.ships[ship_id].location == destination {
            let today = self.date;
            self.ships[ship_id].destination = destination;
            self.ships[ship_id].eta = today;
            self.ships[ship_id].delay_weeks = 0;
            return;
        }
        let mut eta = self.date.add_days(travel.base_days);
        let mut total_delay_weeks: u8 = 0;
        if travel.first_delay_weeks > 0 {
            total_delay_weeks = total_delay_weeks + travel.first_delay_weeks;
            eta = eta.add_days(7 * travel.first_delay_weeks as u16);
        }
        if travel.second_delay_weeks > 0 {
            total_delay_weeks = total_delay_weeks + travel.second_delay_weeks;
            eta = eta.add_days(7 * travel.second_delay_weeks as u16);
        }
        self.ships[ship_id].destination = destination;
        self.ships[ship_id].eta = eta;
        self.ships[ship_id].delay_weeks = total_delay_weeks;
    }

    /// The ship and destination that the "set course" command uses: the
    /// selections, each clamped to the last entry.
    pub open spec fn route_pick(&self) -> (int, int) {
        (
            if self.selected_ship < self.ships@.len() { self.selected_ship as int } else { self.ships@.len() - 1 },
            if self.selected_system < self.systems@.len() { self.selected_system as int } else { self.systems@.len() - 1 },
        )
    }

    /// What the voyage of the "set course" command depends on (see
    /// `route_request`), or `None` when no voyage is to be planned.
    pub fn selected_route_request(&self) -> (r: Option<((i16, i16), (i16, i16))>)
        requires
            self.wf(),
        ensures
            r is Some <==> (self.ships@.len() > 0 && self.systems@.len() > 0
                && self.needs_travel(self.route_pick().0, self.route_pick().1)),
            r matches Some(c) ==> c == (
                self.systems@[self.ships@[self.route_pick().0].location as int].coords,
                self.systems@[self.route_pick().1].coords,
            ),
    {
        if self.ships.len() == 0 || self.systems.len() == 0 {
            return None;
        }
        let ship_idx = if self.selected_ship < self.ships.len() { self.selected_ship } else { self.ships.len() - 1 };
        let dest_idx = if self.selected_system < self.systems.len() {
            self.selected_system
        } else {
            self.systems.len() - 1
        };
        self.route_request(ship_idx, dest_idx)
    }

    /// What the "set course" command does to game `a` with the voyage
    /// `travel`, giving `b` and the report `msg`: nothing to route, the ship
    /// already there, or the ship sent off (see `route_pick`).
    pub open spec fn course_set(a: &GameState, b: &GameState, msg: Seq<char>, travel: Travel) -> bool {
        &&& (a.ships@.len() == 0 || a.systems@.len() == 0 ==> {
            &&& msg == "No ships or systems to route."@
            &&& *b == *a
        })
        &&& (a.ships@.len() > 0 && a.systems@.len() > 0 ==> {
            let (si, di) = a.route_pick();
            let ship = a.ships@[si];
            if ship.location == di {
                &&& msg == ship.name@ + " is already at "@ + a.systems@[ship.location as int].name@
                &&& *b == *a
            } else {
                let eta = travel.eta_from(a.date);
                &&& only_ship_changed(a, b, si)
                &&& ship_routed(ship, b.ships@[si], di as usize, eta, travel.delay_total())
                &&& msg == ship.name@ + " set course to "@ + a.systems@[di].name@ + " \u{2014} ETA day "@
                    + decimal(eta.day as int) + ", year "@ + decimal(eta.year as int) + (if travel.delay_total() > 0 {
                    " ("@ + decimal(travel.delay_total()) + " wk delay factored)"@
                } else {
                    Seq::<char>::empty()
                })
            }
        })
    }

    /// The "set course" command: sends the selected ship (clamped to the
    /// last ship) to the selected system (clamped to the last system) on the
    /// voyage `travel`, and reports the new course and arrival date, or that
    /// the ship is already there, or that there is nothing to route.
    pub fn route_selected_ship_to_selected_system(&mut self, travel: Travel) -> (r: String)
        requires
            old(self).wf(),
            old(self).calendar_room(),
            travel.valid(),
        ensures
            GameState::course_set(old(self), final(self), r@, travel),
    {
        if self.ships.len() == 0 || self.systems.len() == 0 {
            return String::from_str("No ships or systems to route.");
        }
        let ship_idx = if self.selected_ship < self.ships.len() { self.selected_ship } else { self.ships.len() - 1 };
        let dest_idx = if self.selected_system < self.systems.len() {
            self.selected_system
        } else {
            self.systems.len() - 1
        };
        let loc = self.ships[ship_idx].location;
        assert(self.ships@[ship_idx as int].location < self.systems@.len());
        if loc == dest_idx {
            let mut msg = self.ships[ship_idx].name.clone();
            msg.append(" is already at ");
            msg.append(self.systems[loc].name.as_str());
            return msg;
        }
        let dest_name = self.systems[dest_idx].name.clone();
        self.schedule_route(ship_idx, dest_idx, travel);
        let mut msg = self.ships[ship_idx].name.clone();
        msg.append(" set course to ");
        msg.append(dest_name.as_str());
        msg.append(" \u{2014} ETA day ");
        push_decimal(&mut msg, self.ships[ship_idx].eta.day as i64);
        msg.append(", year ");
        push_decimal(&mut msg, self.ships[ship_idx].eta.year as i64);
        let delay = self.ships[ship_idx].delay_weeks;
        if delay > 0 {
            msg.append(" (");
            push_decimal(&mut msg, delay as i64);
            msg.append(" wk delay factored)");
        }
        proof {
            let eta = travel.eta_from(old(self).date);
            let head = old(self).ships@[ship_idx as int].name@ + " set course to "@
                + old(self).systems@[dest_idx as int].name@ + " \u{2014} ETA day "@ + decimal(eta.day as int)
                + ", year "@ + decimal(eta.year as int);
            assert(self.ships@[ship_idx as int].eta == eta);
            if delay == 0 {
                assert(msg@ =~= head + Seq::<char>::empty());
            } else {
                assert(msg@ =~= head + (" ("@ + decimal(travel.delay_total()) + " wk delay factored)"@));
            }
        }
        msg
    }

    /// Sends every ship towards system 1 (system 0 in a one-system galaxy),
    /// ship `i` on voyage `plans[i]`.
    pub fn autopilot_demo_routes(&mut self, plans: &Vec<Travel>)
        requires
            old(self).calendar_room(),
            plans@.len() == old(self).ships@.len(),
            forall|i: int| 0 <= i < plans@.len() ==> #[trigger] plans@[i].valid(),
        ensures
            final(self).ships@.len() == old(self).ships@.len(),
            final(self).systems == old(self).systems,
            final(self).date == old(self).date,
            forall|i: int| 0 <= i < old(self).ships@.len() ==> {
                let a = old(self).ships@[i];
                let dest: usize = if old(self).systems@.len() > 1 { 1 } else { 0 };
                if dest >= old(self).systems@.len() {
                    #[trigger] final(self).ships@[i] == a
                } else if a.location == dest {
                    ship_routed(a, final(self).ships@[i], dest, old(self).date, 0)
                } else {
                    ship_routed(a, final(self).ships@[i], dest, plans@[i].eta_from(old(self).date), plans@[i].delay_total())
                }
            },
    {
        let dest: usize = if self.systems.len() > 1 { 1 } else { 0 };
        let n = self.ships.len();
        let ghost start = *self;
        let mut i: usize = 0;
        while i < n
            invariant
                i <= n,
                n == start.ships@.len(),
                plans@.len() == n,
                forall|k: int| 0 <= k < plans@.len() ==> #[trigger] plans@[k].valid(),
                dest == (if start.systems@.len() > 1 { 1usize } else { 0usize }),
                self.ships@.len() == n,
                self.systems == start.systems,
                self.date == start.date,
                start.calendar_room(),
                self.calendar_room(),
                forall|k: int| i <= k < n ==> #[trigger] self.ships@[k] == start.ships@[k],
                forall|k: int| 0 <= k < i ==> {
                    let a = start.ships@[k];
                    if dest >= start.systems@.len() {
                        #[trigger] self.ships@[k] == a
                    } else if a.location == dest {
                        ship_routed(a, self.ships@[k], dest, start.date, 0)
                    } else {
                        ship_routed(a, self.ships@[k], dest, plans@[k].eta_from(start.date), plans@[k].delay_total())
                    }
                },
            decreases n - i,
        {
            let ghost before = *self;
            self.schedule_route(i, dest, plans[i]);
            assert forall|k: int| 0 <= k < i + 1 implies {
                let a = start.ships@[k];
                if dest >= start.systems@.len() {
                    #[trigger] self.ships@[k] == a
                } else if a.location == dest {
                    ship_routed(a, self.ships@[k], dest, start.date, 0)
                } else {
                    ship_routed(a, self.ships@[k], dest, plans@[k].eta_from(start.date), plans@[k].delay_total())
                }
            } by {
                if k < i {
                    assert(self.ships@[k] == before.ships@[k]);
                }
            }
            i = i + 1;
        }
    }
}

} // verus!
