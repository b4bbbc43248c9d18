use rand::RngCore;
use star_trader::date::GameDate;
use star_trader::market::MarketUpdate;
use star_trader::star::StarClass;
use star_trader::travel::Travel;
use star_trader::world::{GameState, StarSystem};

const LIST: [i32; 6] = [5000, 3500, 4000, 4500, 3000, 3000];

fn listed(s: &StarSystem, _d: GameDate) -> MarketUpdate {
    MarketUpdate { stock: s.stock, prices: LIST }
}

fn world() -> GameState {
    GameState::new_demo_world(42, &listed)
}

fn voyage(days: u16) -> Travel {
    Travel { base_days: days, first_delay_weeks: 0, second_delay_weeks: 0 }
}

#[test]
fn deposit_and_withdraw_at_a_bank() {
    let mut g = world();
    assert_eq!(g.deposit(0, 1000, 0).unwrap(), "Deposited $1000");
    assert_eq!(g.ships[0].cash, 4000);
    assert_eq!(g.bank_balance, 1000);
    assert_eq!(g.withdraw(0, 400, 0).unwrap(), "Withdrew $400");
    assert_eq!(g.ships[0].cash, 4400);
    assert_eq!(g.bank_balance, 600);
    assert_eq!(g.bank_last_date, g.date);
}

#[test]
fn withdrawal_undoes_a_deposit_the_same_day() {
    let mut g = world();
    g.bank_balance = 2000;
    g.bank_last_date = GameDate::new(1, 2069);
    g.deposit(1, 700, 100).unwrap();
    assert_eq!(g.bank_balance, 2800);
    g.withdraw(1, 700, 55).unwrap();
    assert_eq!(g.bank_balance, 2100);
    assert_eq!(g.ships[1].cash, 5000);
}

#[test]
fn bank_refusals() {
    let mut g = world();
    assert_eq!(g.deposit(0, 0, 0).unwrap_err(), "Amount must be positive");
    assert_eq!(g.deposit(5, 10, 0).unwrap_err(), "Invalid ship");
    assert_eq!(g.deposit(0, 5001, 0).unwrap_err(), "Not enough cash on ship");
    assert_eq!(g.withdraw(0, -3, 0).unwrap_err(), "Amount must be positive");
    assert_eq!(g.withdraw(2, 10, 0).unwrap_err(), "Invalid ship");
    assert_eq!(g.withdraw(0, 10, 0).unwrap_err(), "Not enough in bank");
    g.ships[0].location = 1;
    assert_eq!(g.deposit(0, 10, 0).unwrap_err(), "No bank at this system");
    assert_eq!(g.withdraw(0, 10, 0).unwrap_err(), "No bank at this system");
    assert_eq!(g.ships[0].cash, 5000);
    assert_eq!(g.bank_balance, 0);
}

#[test]
fn interest_is_credited_once_time_has_passed() {
    let mut g = world();
    g.bank_balance = 1000;
    g.bank_last_date = GameDate::new(1, 2069);
    g.accrue_interest(50);
    assert_eq!(g.bank_balance, 1050);
    assert_eq!(g.bank_last_date, g.date);
    g.accrue_interest(50);
    assert_eq!(g.bank_balance, 1050);
    // A short withdrawal still credits the interest due.
    g.bank_last_date = GameDate::new(1, 2069);
    assert_eq!(g.withdraw(0, 5000, 25).unwrap_err(), "Not enough in bank");
    assert_eq!(g.bank_balance, 1075);
    assert_eq!(g.bank_last_date, g.date);
}

#[test]
fn courses_and_arrival_dates() {
    let mut g = world();
    assert_eq!(g.route_request(0, 1), Some(((0, 0), (25, 8))));
    assert_eq!(g.route_request(0, 0), None);
    assert_eq!(g.route_request(0, 2), None);
    g.schedule_route(0, 1, voyage(91));
    assert_eq!(g.ships[0].eta, GameDate::new(92, 2070));
    assert_eq!(g.ships[0].destination, 1);
    assert_eq!(g.ships[0].delay_weeks, 0);
    g.schedule_route(1, 1, Travel { base_days: 91, first_delay_weeks: 1, second_delay_weeks: 2 });
    assert_eq!(g.ships[1].eta, GameDate::new(113, 2070));
    assert_eq!(g.ships[1].delay_weeks, 3);
    g.schedule_route(1, 0, voyage(91));
    assert_eq!(g.ships[1].eta, g.date);
    assert_eq!(g.ships[1].destination, 0);
    assert_eq!(g.ships[1].delay_weeks, 0);
    for s in &g.ships {
        assert!(g.date.no_later_than(s.eta));
    }
}

#[test]
fn set_course_messages() {
    let mut g = world();
    assert_eq!(g.route_selected_ship_to_selected_system(voyage(91)), "PIONEER is already at SOL");
    g.selected_system = 1;
    assert_eq!(g.selected_route_request(), Some(((0, 0), (25, 8))));
    let msg = g.route_selected_ship_to_selected_system(voyage(91));
    assert_eq!(msg, "PIONEER set course to YORK \u{2014} ETA day 92, year 2070");
    g.selected_ship = 7;
    let msg = g.route_selected_ship_to_selected_system(Travel {
        base_days: 300,
        first_delay_weeks: 3,
        second_delay_weeks: 0,
    });
    assert_eq!(msg, "VENTURE set course to YORK \u{2014} ETA day 322, year 2070 (3 wk delay factored)");
    let mut empty = world();
    empty.ships.clear();
    assert_eq!(empty.route_selected_ship_to_selected_system(voyage(1)), "No ships or systems to route.");
    assert_eq!(empty.selected_route_request(), None);
}

#[test]
fn autopilot_sends_every_ship_to_the_second_system() {
    let mut g = world();
    g.autopilot_demo_routes(&vec![voyage(91), Travel { base_days: 91, first_delay_weeks: 2, second_delay_weeks: 0 }]);
    assert_eq!(g.ships[0].destination, 1);
    assert_eq!(g.ships[0].eta, GameDate::new(92, 2070));
    assert_eq!(g.ships[1].eta, GameDate::new(106, 2070));
    assert_eq!(g.ships[1].delay_weeks, 2);
}

#[test]
fn development_rises_to_the_cap() {
    let mut g = world();
    g.increment_development(1);
    assert_eq!(g.systems[1].dev_score_quarters, 25);
    assert_eq!(g.systems[1].class, StarClass::III);
    g.increment_development(0);
    assert_eq!(g.systems[0].dev_score_quarters, 60);
    g.systems[1].dev_score_quarters = 58;
    g.increment_development(1);
    assert_eq!(g.systems[1].dev_score_quarters, 60);
    assert_eq!(g.systems[1].class, StarClass::I);
    g.increment_development(9);
    assert_eq!(g.systems.len(), 2);
}

#[test]
fn repricing_follows_the_price_model() {
    let mut g = world();
    let doubled = |s: &StarSystem, _d: GameDate| MarketUpdate {
        stock: [s.stock[0] * 2, 1, 2, 3, 4, 5],
        prices: [100, 200, 300, 400, 500, 600],
    };
    g.systems[1].dev_score_quarters = 40;
    g.update_system_for_date(1, GameDate::new(10, 2071), &doubled);
    assert_eq!(g.systems[1].stock, [-10, 1, 2, 3, 4, 5]);
    assert_eq!(g.systems[1].prices, [100, 200, 300, 400, 500, 600]);
    assert_eq!(g.systems[1].last_update, GameDate::new(10, 2071));
    assert_eq!(g.systems[1].class, StarClass::II);
    assert_eq!(g.systems[0].prices, LIST);
    g.reprice_all(&doubled);
    assert_eq!(g.systems[0].stock, [30, 1, 2, 3, 4, 5]);
    assert_eq!(g.systems[0].last_update, g.date);
}

#[test]
fn next_arrival_moves_ships_and_discovers_a_frontier() {
    let mut g = world();
    g.autopilot_demo_routes(&vec![voyage(91), Travel { base_days: 91, first_delay_weeks: 0, second_delay_weeks: 0 }]);
    let msg = g.advance_to_next_arrival((-35, 12), &listed, 0).unwrap();
    assert_eq!(
        msg,
        "PIONEER arrived at YORK | VENTURE arrived at YORK | New frontier system discovered: FRONTIER-3 at (-35,12)"
    );
    assert_eq!(g.date, GameDate::new(92, 2070));
    assert_eq!(g.ships[0].location, 1);
    assert_eq!(g.ships[1].location, 1);
    for s in &g.ships {
        assert!(g.date.no_later_than(s.eta));
    }
    assert_eq!(g.systems[1].dev_score_quarters, 30);
    assert_eq!(g.systems[1].class, StarClass::III);
    assert_eq!(g.systems[1].last_update, GameDate::new(92, 2070));
    assert_eq!(g.systems.len(), 3);
    let f = &g.systems[2];
    assert_eq!(f.id, 2);
    assert_eq!(f.name, "FRONTIER-3");
    assert_eq!(f.class, StarClass::IV);
    assert_eq!(f.dev_score_quarters, 12);
    assert_eq!(f.coords, (-35, 12));
    assert_eq!(f.prices, LIST);
    for v in f.stock {
        assert!((-6..=6).contains(&v) && v != 0);
    }
}

#[test]
fn late_arrivals_are_reported() {
    let mut g = world();
    g.systems[0].class = StarClass::IV;
    g.systems[0].dev_score_quarters = 0;
    g.schedule_route(0, 1, Travel { base_days: 10, first_delay_weeks: 2, second_delay_weeks: 0 });
    g.schedule_route(1, 1, voyage(50));
    let msg = g.advance_to_next_arrival((0, 0), &listed, 0).unwrap();
    assert_eq!(msg, "PIONEER arrived at YORK (2 wks late)");
    assert_eq!(g.date, GameDate::new(25, 2070));
    assert_eq!(g.ships[1].location, 0);
    assert_eq!(g.systems.len(), 2);
    // A docked ship does not arrive again: the next arrival is VENTURE's.
    let msg = g.advance_to_next_arrival((0, 0), &listed, 0).unwrap();
    assert_eq!(msg, "VENTURE arrived at YORK");
    assert_eq!(g.date, GameDate::new(51, 2070));
    assert_eq!(g.systems[1].dev_score_quarters, 30);
    // Nobody is under way any more.
    assert_eq!(g.next_arrival_date(), None);
    assert_eq!(g.advance_to_next_arrival((0, 0), &listed, 0), None);
    assert_eq!(g.date, GameDate::new(51, 2070));
}

#[test]
fn interest_accrues_as_time_advances() {
    let mut g = world();
    g.bank_balance = 1000;
    g.schedule_route(0, 1, voyage(359));
    g.schedule_route(1, 1, voyage(359));
    assert_eq!(g.next_arrival_date(), Some(GameDate::new(360, 2070)));
    g.advance_to_next_arrival((0, 0), &listed, 50).unwrap();
    assert_eq!(g.bank_balance, 1050);
    assert_eq!(g.bank_last_date, GameDate::new(360, 2070));
}

#[test]
fn no_arrivals_without_ships() {
    let mut g = world();
    g.ships.clear();
    assert_eq!(g.next_arrival_date(), None);
    assert_eq!(g.advance_to_next_arrival((0, 0), &listed, 0), None);
    assert_eq!(g.date, GameDate::new(1, 2070));
}

#[test]
fn no_frontier_before_the_galaxy_develops() {
    let mut g = world();
    g.systems[0].class = StarClass::II;
    assert_eq!(g.maybe_spawn_new_star((1, 1), &listed), None);
    assert_eq!(g.systems.len(), 2);
    g.systems[0].class = StarClass::I;
    let msg = g.maybe_spawn_new_star((4, -2), &listed).unwrap();
    assert_eq!(msg, "New frontier system discovered: FRONTIER-3 at (4,-2)");
}

#[test]
fn deposits_can_be_drawn_at_another_bank() {
    let mut g = world();
    g.systems[1].class = StarClass::II;
    g.ships[1].location = 1;
    g.deposit(0, 1500, 0).unwrap();
    assert_eq!(g.withdraw(1, 1500, 0).unwrap(), "Withdrew $1500");
    assert_eq!(g.ships[0].cash, 3500);
    assert_eq!(g.ships[1].cash, 6500);
    assert_eq!(g.bank_balance, 0);
}

#[test]
fn holds_fill_up_to_the_limit() {
    let mut g = world();
    g.systems[0].stock[2] = 40;
    g.systems[0].prices[2] = 1;
    g.buy(0, 0, 2, 30).unwrap();
    assert_eq!(g.ships[0].net_tonnage, 30);
    assert_eq!(g.buy(0, 0, 2, 1).unwrap_err(), "Exceeds tonnage limit");
    g.systems[0].prices[4] = 1;
    g.buy(0, 0, 4, 5).unwrap();
    assert_eq!(g.ships[0].net_tonnage, 30);
    assert_eq!(g.ships[0].cargo[4], 5);
}

#[test]
fn demo_worlds_from_one_seed_match() {
    let mut a = world();
    let mut b = world();
    assert_eq!(a.date, b.date);
    assert_eq!(a.systems.len(), b.systems.len());
    for (x, y) in a.systems.iter().zip(b.systems.iter()) {
        assert_eq!((x.id, &x.name, x.class, x.dev_score_quarters, x.coords), (y.id, &y.name, y.class, y.dev_score_quarters, y.coords));
    }
    for (x, y) in a.ships.iter().zip(b.ships.iter()) {
        assert_eq!((x.id, &x.name, x.location, x.destination, x.cash, x.cargo, x.eta), (y.id, &y.name, y.location, y.destination, y.cash, y.cargo, y.eta));
    }
    assert_eq!(a.rng.next_u64(), b.rng.next_u64());
    let mut c = GameState::new_demo_world(43, &listed);
    let mut d = GameState::new_demo_world(42, &listed);
    assert_ne!(c.rng.next_u64(), d.rng.next_u64());
}
