use vstd::prelude::*;

use crate::date::GameDate;
use crate::market::{MarketUpdate, repriced_by};
use crate::star::StarClass;
use crate::text::text;
use crate::world::{GameState, Ship, StarSystem, seeded_generator, seeded_rng};

verus! {

/// Ship `s` is a fresh demo ship number `id` named `name`: docked at SOL
/// with 5000 credits, an empty hold and an arrival date of day 1, 2070,
/// bound for YORK.
pub open spec fn demo_ship(s: Ship, id: usize, name: Seq<char>) -> bool {
    &&& s.id == id
    &&& s.name@ == name
    &&& s.location == 0
    &&& s.destination == 1
    &&& s.cash == 5000
    &&& s.cargo@ == seq![0i32, 0, 0, 0, 0, 0]
    &&& s.net_tonnage == 0
    &&& s.eta == GameDate { day: 1, year: 2070 }
    &&& s.delay_weeks == 0
}

/// A system as it stands before its first market update: the given
/// identity, class, development, position and stock, last updated on
/// `date`, with no prices yet.
pub open spec fn unpriced_system(
    s: StarSystem,
    id: usize,
    name: Seq<char>,
    class: StarClass,
    dev_quarters: i32,
    coords: (i16, i16),
    stock: Seq<i32>,
    date: GameDate,
) -> bool {
    &&& s.id == id
    &&& s.name@ == name
    &&& s.class == class
    &&& s.dev_score_quarters == dev_quarters
    &&& s.coords == coords
    &&& s.stock@ == stock
    &&& s.last_update == date
    &&& s.prices@ == seq![0i32, 0, 0, 0, 0, 0]
}

/// The demo galaxy apart from its markets: day 1 of 2070; SOL, a Class I
/// system (15 points) at the origin, and YORK, a Class III system (5
/// points) at (25, 8), both last updated today; two ships, PIONEER and
/// VENTURE, with 5000 credits each at SOL; the first system, ship and good
/// selected; a 30-ton hold limit, 1.25 points of development per arrival,
/// an empty bank and three bidding rounds per trade; and the generator
/// seeded with `seed`.
pub open spec fn demo_layout(g: GameState, seed: u64) -> bool {
    &&& g.date == (GameDate { day: 1, year: 2070 })
    &&& g.systems@.len() == 2
    &&& g.systems@[0].id == 0 && g.systems@[0].name@ == "SOL"@ && g.systems@[0].class == StarClass::I
        && g.systems@[0].dev_score_quarters == 60 && g.systems@[0].coords == (0i16, 0i16)
    &&& g.systems@[1].id == 1 && g.systems@[1].name@ == "YORK"@ && g.systems@[1].class == StarClass::III
        && g.systems@[1].dev_score_quarters == 20 && g.systems@[1].coords == (25i16, 8i16)
    &&& g.systems@[0].last_update == g.date && g.systems@[1].last_update == g.date
    &&& g.ships@.len() == 2
    &&& demo_ship(g.ships@[0], 0, "PIONEER"@)
    &&& demo_ship(g.ships@[1], 1, "VENTURE"@)
    &&& g.selected_system == 0 && g.selected_ship == 0 && g.selected_good == 0
    &&& g.max_tonnage == 30
    &&& g.development_increment_quarters == 5
    &&& g.bank_balance == 0
    &&& g.bank_last_date == g.date
    &&& g.max_bid_rounds == 3
    &&& g.rng == seeded_generator(seed)
}

fn new_ship(id: usize, name: &str) -> (s: Ship)
    ensures
        demo_ship(s, id, name@),
{
    let s = Ship {
        id,
        name: text(name),
        location: 0,
        destination: 1,
        cash: 5000,
        cargo: [0i32; 6],
        net_tonnage: 0,
        eta: GameDate::new(1, 2070),
        delay_weeks: 0,
    };
    assert(s.cargo@ =~= seq![0i32, 0, 0, 0, 0, 0]);
    s
}

impl GameState {
    /// The demo galaxy on day 1 of 2070, its markets priced by `reprice`:
    /// SOL, a Class I system (15 points) at the origin, and YORK, a Class III
    /// system (5 points) at (25, 8); two ships, PIONEER and VENTURE, with 5000
    /// credits each at SOL; a 30-ton hold limit, 1.25 points of development
    /// per arrival, an empty bank and three bidding rounds per trade. The
    /// generator is seeded with `seed`. The ships are not yet under way
    /// (see `autopilot_demo_routes`).
    pub fn new_demo_world<F: Fn(&StarSystem, GameDate) -> MarketUpdate>(seed: u64, reprice: &F) -> (g: GameState)
        requires
            forall|s: &StarSystem, d: GameDate| #[trigger] reprice.requires((s, d)),
        ensures
            g.wf(),
            demo_layout(g, seed),
            exists|s0: StarSystem| #[trigger] repriced_by(reprice, s0, g.systems@[0], g.date)
                && unpriced_system(s0, 0, "SOL"@, StarClass::I, 60, (0i16, 0i16), seq![15i32, 0, 15, 10, 10, 0], g.date),
            exists|s1: StarSystem| #[trigger] repriced_by(reprice, s1, g.systems@[1], g.date)
                && unpriced_system(s1, 1, "YORK"@, StarClass::III, 20, (25i16, 8i16), seq![-5i32, -5i32, 0i32, 0i32, 0i32, 5i32], g.date),
    {
        let start = GameDate::new(1, 2070);
        let sol = StarSystem {
            id: 0,
            name: text("SOL"),
            class: StarClass::I,
            dev_score_quarters: 60,
            coords: (0, 0),
            stock: [15, 0, 15, 10, 10, 0],
            last_update: start,
            prices: [0i32; 6],
        };
        let york = StarSystem {
            id: 1,
            name: text("YORK"),
            class: StarClass::III,
            dev_score_quarters: 20,
            coords: (25, 8),
            stock: [-5, -5, 0, 0, 0, 5],
            last_update: start,
            prices: [0i32; 6],
        };
        let ghost sol0 = sol;
        let ghost york0 = york;
        proof {
            assert(sol0.stock@ =~= seq![15i32, 0, 15, 10, 10, 0]);
            assert(york0.stock@ =~= seq![-5i32, -5i32, 0i32, 0i32, 0i32, 5i32]);
            assert(sol0.prices@ =~= seq![0i32, 0, 0, 0, 0, 0]);
            assert(york0.prices@ =~= seq![0i32, 0, 0, 0, 0, 0]);
        }
        let mut systems: Vec<StarSystem> = Vec::new();
        systems.push(sol);
        systems.push(york);
        let mut ships: Vec<Ship> = Vec::new();
        ships.push(new_ship(0, "PIONEER"));
        ships.push(new_ship(1, "VENTURE"));
        let mut state = GameState {
            date: start,
            systems,
            ships,
            selected_system: 0,
            selected_ship: 0,
            selected_good: 0,
            max_tonnage: 30,
            development_increment_quarters: 5,
            bank_balance: 0,
            bank_last_date: start,
            max_bid_rounds: 3,
            rng: seeded_rng(seed),
        };
        proof {
            assert(state.systems@[0] == sol0);
            assert(state.systems@[1] == york0);
        }
        state.reprice_all(reprice);
        proof {
            assert(state.systems@[0].class == crate::world::class_for_quarters(60));
            assert(state.systems@[1].class == crate::world::class_for_quarters(20));
        }
        state
    }
}

} // verus!
