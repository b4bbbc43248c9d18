//! Run-time test of the state the program's operations expect.

use vstd::prelude::*;

use crate::session::{App, CREDIT_LIMIT, FIGURE_LIMIT, HIGHLIGHT_TICKS, Snapshot, credits_ok, figure_ok, figures_ok};
use crate::screens::Highlight;
use crate::world::{GameState, MAX_SYSTEMS};

verus! {

fn figure_fits(x: i32) -> (r: bool)
    ensures
        r == figure_ok(x as int),
{
    -FIGURE_LIMIT <= x && x <= FIGURE_LIMIT
}

fn credits_fit(x: i64) -> (r: bool)
    ensures
        r == credits_ok(x as int),
{
    -CREDIT_LIMIT <= x && x <= CREDIT_LIMIT
}

fn all_figures_fit(a: &[i32; 6]) -> (r: bool)
    ensures
        r == figures_ok(a@),
{
    let mut g: usize = 0;
    while g < 6
        invariant
            g <= 6,
            a@.len() == 6,
            forall|k: int| 0 <= k < g ==> figure_ok(#[trigger] a@[k] as int),
        decreases 6 - g,
    {
        if !figure_fits(a[g]) {
            return false;
        }
        g = g + 1;
    }
    true
}

/// Whether every ship is at and bound for an existing system and the
/// selected good is one of the six.
fn state_shaped(state: &GameState) -> (r: bool)
    ensures
        r == state.wf(),
{
    if state.selected_good >= 6 {
        return false;
    }
    let n = state.systems.len();
    let mut i: usize = 0;
    while i < state.ships.len()
        invariant
            i <= state.ships@.len(),
            n == state.systems@.len(),
            forall|k: int| 0 <= k < i ==> (#[trigger] state.ships@[k]).location < n && state.ships@[k].destination < n,
        decreases state.ships@.len() - i,
    {
        if state.ships[i].location >= n || state.ships[i].destination >= n {
            return false;
        }
        i = i + 1;
    }
    true
}

fn state_figures_fit(state: &GameState) -> (r: bool)
    ensures
        r == App::figures_in_range(state),
{
    if !figure_fits(state.max_tonnage) || !credits_fit(state.bank_balance) {
        return false;
    }
    let mut i: usize = 0;
    while i < state.ships.len()
        invariant
            i <= state.ships@.len(),
            forall|k: int| #![trigger state.ships@[k]] 0 <= k < i ==> {
                &&& credits_ok(state.ships@[k].cash as int)
                &&& figure_ok(state.ships@[k].net_tonnage as int)
                &&& figures_ok(state.ships@[k].cargo@)
            },
        decreases state.ships@.len() - i,
    {
        let s = &state.ships[i];
        if !credits_fit(s.cash) || !figure_fits(s.net_tonnage) || !all_figures_fit(&s.cargo) {
            return false;
        }
        i = i + 1;
    }
    let mut j: usize = 0;
    while j < state.systems.len()
        invariant
            j <= state.systems@.len(),
            forall|k: int| #![trigger state.systems@[k]] 0 <= k < j ==> {
                &&& figures_ok(state.systems@[k].stock@)
                &&& figures_ok(state.systems@[k].prices@)
            },
        decreases state.systems@.len() - j,
    {
        let s = &state.systems[j];
        if !all_figures_fit(&s.stock) || !all_figures_fit(&s.prices) {
            return false;
        }
        j = j + 1;
    }
    true
}

fn snapshot_fits(p: &Snapshot) -> (r: bool)
    ensures
        r == p.in_range(),
{
    if !credits_fit(p.bank_balance) {
        return false;
    }
    let mut i: usize = 0;
    while i < p.ships.len()
        invariant
            i <= p.ships@.len(),
            forall|k: int| #![trigger p.ships@[k]] 0 <= k < i ==> {
                &&& credits_ok(p.ships@[k].0 as int)
                &&& figure_ok(p.ships@[k].1 as int)
                &&& figures_ok(p.ships@[k].2@)
            },
        decreases p.ships@.len() - i,
    {
        let s = &p.ships[i];
        if !credits_fit(s.0) || !figure_fits(s.1) || !all_figures_fit(&s.2) {
            return false;
        }
        i = i + 1;
    }
    let mut j: usize = 0;
    while j < p.systems.len()
        invariant
            j <= p.systems@.len(),
            forall|k: int| #![trigger p.systems@[k]] 0 <= k < j ==> {
                &&& figures_ok(p.systems@[k].0@)
                &&& figures_ok(p.systems@[k].1@)
            },
        decreases p.systems@.len() - j,
    {
        let s = &p.systems[j];
        if !all_figures_fit(&s.0) || !all_figures_fit(&s.1) {
            return false;
        }
        j = j + 1;
    }
    true
}

fn rows_match(a: &Vec<Vec<Highlight>>, b: &Vec<Vec<Highlight>>) -> (r: bool)
    ensures
        r == (a@.len() == b@.len() && forall|i: int| 0 <= i < a@.len() ==> (#[trigger] a@[i])@.len() == b@[i]@.len()),
{
    if a.len() != b.len() {
        return false;
    }
    let mut i: usize = 0;
    while i < a.len()
        invariant
            i <= a@.len(),
            a@.len() == b@.len(),
            forall|k: int| 0 <= k < i ==> (#[trigger] a@[k])@.len() == b@[k]@.len(),
        decreases a@.len() - i,
    {
        if a[i].len() != b[i].len() {
            return false;
        }
        i = i + 1;
    }
    true
}

impl App {
    /// Whether this is a state the program's operations accept (see `wf`):
    /// the program tests it before acting on a state it did not get from
    /// them, such as a loaded game.
    pub fn is_ready(&self) -> (r: bool)
        ensures
            r == self.wf(),
    {
        if !state_shaped(&self.state) || !state_figures_fit(&self.state) {
            return false;
        }
        if self.state.date.year > i32::MAX - 400 || self.state.systems.len() > MAX_SYSTEMS {
            return false;
        }
        if self.state.ships.len() > 2147483647usize {
            return false;
        }
        if self.ticks > u64::MAX - HIGHLIGHT_TICKS || self.menu_index == usize::MAX {
            return false;
        }
        if self.ship_cash_hi.len() != self.ship_ton_hi.len() || !rows_match(&self.stock_hi, &self.price_hi) {
            return false;
        }
        match &self.prev_state {
            Some(p) => snapshot_fits(p),
            None => true,
        }
    }
}

} // verus!
