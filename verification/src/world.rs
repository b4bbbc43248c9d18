use vstd::prelude::*;
use rand::Rng;
use rand::SeedableRng;
use rand_chacha::ChaCha12Rng;

use crate::date::GameDate;
use crate::goods::GOODS_COUNT;
use crate::star::{StarClass, class_for_score};

verus! {

/// The seeded random-number generator that a game carries.
#[verifier::external_type_specification]
#[verifier::external_body]
pub struct ExChaCha12Rng(ChaCha12Rng);

/// Credits, the game's currency.
pub type Credits = i64;

/// Development score at which a system stops developing (15 points).
pub const MAX_DEV_QUARTERS: i32 = 60;

/// Most star systems a galaxy can hold.
pub const MAX_SYSTEMS: usize = 12;

/// A star system: its market (stock and prices per good), development and position.
///
/// The development score is kept in quarter points: the game's scores
/// (15, 5 and 3 to start with, raised by 1.25 at each visit) are all whole
/// quarters, so `dev_score_quarters / 4` is the score exactly.
#[derive(Debug)]
pub struct StarSystem {
    pub id: usize,
    pub name: String,
    pub class: StarClass,
    pub dev_score_quarters: i32,
    pub coords: (i16, i16),
    pub stock: [i32; 6],
    pub last_update: GameDate,
    pub prices: [i32; 6],
}

/// A trading ship: where it is, where it goes, what it carries.
#[derive(Debug)]
pub struct Ship {
    pub id: usize,
    pub name: String,
    pub location: usize,
    pub destination: usize,
    pub cash: Credits,
    pub cargo: [i32; 6],
    pub net_tonnage: i32,
    pub eta: GameDate,
    pub delay_weeks: u8,
}

impl Ship {
    /// The system the ship is at.
    pub fn current_system_id(&self) -> (r: usize)
        ensures
            r == self.location,
    {
        self.location
    }
}

/// A bank account held by an owner.
#[derive(Debug, Clone, Copy, PartialEq, Eq, Structural)]
pub struct BankAccount {
    pub owner: usize,
    pub balance: Credits,
}

/// Direction of a trade, seen from the ship.
#[derive(Debug, Clone, Copy, PartialEq, Eq, Structural)]
pub enum TradeKind {
    BuyFromSystem,
    SellToSystem,
}

/// The state of a game: calendar, galaxy, fleet, bank and selections.
///
/// The price model and the travel parameters are not held here: prices and
/// travel times are computed in floating point by the program that drives
/// the game, and reach the operations below as their results.
pub struct GameState {
    pub date: GameDate,
    pub systems: Vec<StarSystem>,
    pub ships: Vec<Ship>,
    pub selected_system: usize,
    pub selected_ship: usize,
    pub selected_good: usize,
    pub max_tonnage: i32,
    /// Development gained at each arrival, in quarter points.
    pub development_increment_quarters: i32,
    pub bank_balance: Credits,
    pub bank_last_date: GameDate,
    pub max_bid_rounds: usize,
    pub rng: ChaCha12Rng,
}

/// Rounds a development score given in quarter points to the nearest whole
/// point, halves away from zero.
pub open spec fn rounded_score(quarters: int) -> int {
    if quarters >= 0 {
        (quarters + 2) / 4
    } else {
        -((-quarters + 2) / 4)
    }
}

/// The class that a development score (in quarter points) earns.
pub open spec fn class_for_quarters(quarters: int) -> StarClass {
    class_for_score(rounded_score(quarters))
}

/// Which column of the price model applies at a development score in
/// quarter points: 2 from 10 points on, 1 from 5, else 0.
pub open spec fn band_for_quarters(quarters: int) -> usize {
    if quarters >= 40 {
        2
    } else if quarters >= 20 {
        1
    } else {
        0
    }
}

/// The class for a development score in quarter points, as the game assigns
/// it after rounding the score to a whole number.
pub fn class_from_quarters(quarters: i32) -> (r: StarClass)
    ensures
        r == class_for_quarters(quarters as int),
{
    let rounded: i64 = if quarters >= 0 {
        (quarters as i64 + 2) / 4
    } else {
        -((-(quarters as i64) + 2) / 4)
    };
    let clamped: i16 = if rounded > 32767 {
        32767
    } else if rounded < -32768 {
        -32768
    } else {
        rounded as i16
    };
    StarClass::from_score(clamped)
}

/// The price-model column for a development score in quarter points.
pub fn class_band(quarters: i32) -> (r: usize)
    ensures
        r == band_for_quarters(quarters as int),
        r < 3,
{
    if quarters >= 40 {
        2
    } else if quarters >= 20 {
        1
    } else {
        0
    }
}

/// The generator that `ChaCha12Rng::seed_from_u64` makes from `seed`.
pub uninterp spec fn seeded_generator(seed: u64) -> ChaCha12Rng;

/// `SeedableRng::seed_from_u64` for `ChaCha12Rng`: `rand_core` expands the
/// seed into a full key with a fixed generator and keys ChaCha with it, so the
/// generator is a function of the seed alone.
#[verifier::external_body]
pub(crate) fn seeded_rng(seed: u64) -> (r: ChaCha12Rng)
    ensures
        r == seeded_generator(seed),
{
    ChaCha12Rng::seed_from_u64(seed)
}

/// A draw from `low..=high`; `rand`'s `Rng::gen_range` returns a value in the
/// range and panics on an empty one. Which value comes out is left to chance.
#[verifier::external_body]
pub(crate) fn roll_inclusive(rng: &mut ChaCha12Rng, low: i32, high: i32) -> (r: i32)
    requires
        low <= high,
    ensures
        low <= r <= high,
{
    rng.gen_range(low..=high)
}

/// The index that stepping `delta` places from `current` reaches in a
/// list of `len` entries, wrapping around at both ends (the current index
/// read as an `i32`, as the game does).
pub open spec fn cycled(current: usize, delta: i8, len: int) -> int {
    ((current as i32) as int + delta as int) % len
}

fn cycle_index(current: usize, delta: i8, len: usize) -> (r: usize)
    requires
        0 < len <= i32::MAX,
    ensures
        r == cycled(current, delta, len as int),
        r < len,
{
    let t: i64 = (#[verifier::truncate] (current as i32)) as i64 + delta as i64;
    let l: i64 = len as i64;
    let ghost ti: int = t as int;
    let ghost li: int = l as int;
    if t >= 0 {
        let m: u64 = (t as u64) % (l as u64);
        assert(m as int == ti % li);
        m as usize
    } else {
        let m: u64 = ((-t) as u64) % (l as u64);
        let ghost mi: int = m as int;
        let ghost q: int = (-ti) / li;
        assert(-ti == q * li + mi) by {
            vstd::arithmetic::div_mod::lemma_fundamental_div_mod(-ti, li);
            assert(mi == (-ti) % li);
        }
        if m == 0 {
            proof {
                assert(ti == (-q) * li + 0) by (nonlinear_arith)
                    requires
                        -ti == q * li + mi,
                        mi == 0,
                ;
                vstd::arithmetic::div_mod::lemma_fundamental_div_mod_converse(ti, li, -q, 0);
            }
            0
        } else {
            proof {
                assert(ti == (-q - 1) * li + (li - mi)) by (nonlinear_arith)
                    requires
                        -ti == q * li + mi,
                ;
                vstd::arithmetic::div_mod::lemma_fundamental_div_mod_converse(ti, li, -q - 1, li - mi);
            }
            (l as u64 - m) as usize
        }
    }
}

impl GameState {
    /// The shape that every operation keeps: each ship is at and bound
    /// for a system that exists, and the selected good is one of the six.
    pub open spec fn wf(&self) -> bool {
        &&& self.selected_good < GOODS_COUNT
        &&& forall|i: int|
            #![trigger self.ships@[i]]
            0 <= i < self.ships@.len() ==> self.ships@[i].location < self.systems@.len()
                && self.ships@[i].destination < self.systems@.len()
    }

    /// Steps the ship selection by `delta`, wrapping around; no change without ships.
    pub fn cycle_ship(&mut self, delta: i8)
        requires
            old(self).ships.len() <= i32::MAX,
        ensures
            final(self).selected_ship == (if old(self).ships.len() == 0 {
                old(self).selected_ship as int
            } else {
                cycled(old(self).selected_ship, delta, old(self).ships.len() as int)
            }),
            final(self).ships == old(self).ships,
            final(self).systems == old(self).systems,
            final(self).date == old(self).date,
            final(self).selected_system == old(self).selected_system,
            final(self).selected_good == old(self).selected_good,
            final(self).bank_balance == old(self).bank_balance,
            final(self).bank_last_date == old(self).bank_last_date,
            final(self).max_tonnage == old(self).max_tonnage,
            final(self).max_bid_rounds == old(self).max_bid_rounds,
            final(self).development_increment_quarters == old(self).development_increment_quarters,
            final(self).rng == old(self).rng,
    {
        if self.ships.len() == 0 {
            return;
        }
        self.selected_ship = cycle_index(self.selected_ship, delta, self.ships.len());
    }

    /// Steps the system selection by `delta`, wrapping around; no change without systems.
    pub fn cycle_system(&mut self, delta: i8)
        requires
            old(self).systems.len() <= i32::MAX,
        ensures
            final(self).selected_system == (if old(self).systems.len() == 0 {
                old(self).selected_system as int
            } else {
                cycled(old(self).selected_system, delta, old(self).systems.len() as int)
            }),
            final(self).ships == old(self).ships,
            final(self).systems == old(self).systems,
            final(self).date == old(self).date,
            final(self).selected_ship == old(self).selected_ship,
            final(self).selected_good == old(self).selected_good,
            final(self).bank_balance == old(self).bank_balance,
            final(self).bank_last_date == old(self).bank_last_date,
            final(self).max_tonnage == old(self).max_tonnage,
            final(self).max_bid_rounds == old(self).max_bid_rounds,
            final(self).development_increment_quarters == old(self).development_increment_quarters,
            final(self).rng == old(self).rng,
    {
        if self.systems.len() == 0 {
            return;
        }
        self.selected_system = cycle_index(self.selected_system, delta, self.systems.len());
    }

    /// Steps the selected good by `delta` through the six goods, wrapping around.
    pub fn cycle_good(&mut self, delta: i8)
        ensures
            final(self).selected_good == cycled(old(self).selected_good, delta, GOODS_COUNT as int),
            final(self).selected_good < GOODS_COUNT,
            final(self).ships == old(self).ships,
            final(self).systems == old(self).systems,
            final(self).date == old(self).date,
            final(self).selected_ship == old(self).selected_ship,
            final(self).selected_system == old(self).selected_system,
            final(self).bank_balance == old(self).bank_balance,
            final(self).bank_last_date == old(self).bank_last_date,
            final(self).max_tonnage == old(self).max_tonnage,
            final(self).max_bid_rounds == old(self).max_bid_rounds,
            final(self).development_increment_quarters == old(self).development_increment_quarters,
            final(self).rng == old(self).rng,
    {
        self.selected_good = cycle_index(self.selected_good, delta, GOODS_COUNT);
    }

    /// The selected ship, if the selection names one.
    pub fn selected_ship(&self) -> (r: Option<&Ship>)
        ensures
            r == (if self.selected_ship < self.ships.len() {
                Some(&self.ships@[self.selected_ship as int])
            } else {
                None
            }),
    {
        if self.selected_ship < self.ships.len() {
            Some(&self.ships[self.selected_ship])
        } else {
            None
        }
    }

    /// The selected system, if the selection names one.
    pub fn selected_system(&self) -> (r: Option<&StarSystem>)
        ensures
            r == (if self.selected_system < self.systems.len() {
                Some(&self.systems@[self.selected_system as int])
            } else {
                None
            }),
    {
        if self.selected_system < self.systems.len() {
            Some(&self.systems[self.selected_system])
        } else {
            None
        }
    }

    /// Whether ship `ship_id` exists and is at system `system_id`.
    pub fn ship_at_system(&self, ship_id: usize, system_id: usize) -> (r: bool)
        ensures
            r == (ship_id < self.ships.len() && self.ships@[ship_id as int].location == system_id),
    {
        if ship_id < self.ships.len() {
            self.ships[ship_id].location == system_id
        } else {
            false
        }
    }

    /// Whether the system has a bank (Class I and II systems do).
    pub fn has_bank(system: &StarSystem) -> (r: bool)
        ensures
            r == system.class.banks(),
    {
        system.class.has_bank()
    }
}

} // verus!
