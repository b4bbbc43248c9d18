use star_trader::date::GameDate;
use star_trader::market::MarketUpdate;
use star_trader::trade::{haggle_step, HaggleStep, OfferBand, TradeSession};
use star_trader::travel::Travel;
use star_trader::world::{GameState, StarSystem, TradeKind};

const LIST: [i32; 6] = [5000, 3500, 4000, 4500, 3000, 3000];

fn listed(s: &StarSystem, _d: GameDate) -> MarketUpdate {
    MarketUpdate { stock: s.stock, prices: LIST }
}

fn world() -> GameState {
    GameState::new_demo_world(42, &listed)
}

#[test]
fn demo_world_layout() {
    let g = world();
    assert_eq!(g.date, GameDate::new(1, 2070));
    assert_eq!(g.systems.len(), 2);
    assert_eq!(g.systems[0].name, "SOL");
    assert_eq!(g.systems[1].name, "YORK");
    assert_eq!(g.systems[0].coords, (0, 0));
    assert_eq!(g.systems[1].coords, (25, 8));
    assert_eq!(g.systems[0].stock, [15, 0, 15, 10, 10, 0]);
    assert_eq!(g.systems[1].stock, [-5, -5, 0, 0, 0, 5]);
    assert_eq!(g.systems[0].prices, LIST);
    assert_eq!(g.ships.len(), 2);
    assert_eq!(g.ships[0].name, "PIONEER");
    assert_eq!(g.ships[1].name, "VENTURE");
    for s in &g.ships {
        assert_eq!(s.location, 0);
        assert_eq!(s.destination, 1);
        assert_eq!(s.cash, 5000);
        assert_eq!(s.cargo, [0; 6]);
        assert_eq!(s.current_system_id(), 0);
        assert!(g.date.no_later_than(s.eta));
    }
    assert_eq!(g.max_tonnage, 30);
    assert_eq!(g.max_bid_rounds, 3);
    assert_eq!(g.bank_balance, 0);
}

#[test]
fn buy_at_listed_price() {
    let mut g = world();
    let msg = g.buy(0, 0, 0, 1).unwrap();
    assert_eq!(msg, "Bought 1 UR for $5000");
    assert_eq!(g.ships[0].cash, 0);
    assert_eq!(g.ships[0].cargo[0], 1);
    assert_eq!(g.ships[0].net_tonnage, 1);
    assert_eq!(g.systems[0].stock[0], 14);
    assert_eq!(g.ships[1].cash, 5000);
}

#[test]
fn buying_weightless_goods_keeps_tonnage() {
    let mut g = world();
    let msg = g.buy(0, 0, 4, 1).unwrap();
    assert_eq!(msg, "Bought 1 SOFT for $3000");
    assert_eq!(g.ships[0].net_tonnage, 0);
    assert_eq!(g.ships[0].cargo[4], 1);
}

#[test]
fn buy_refusals_change_nothing() {
    let mut g = world();
    assert_eq!(g.buy(0, 0, 0, 0).unwrap_err(), "Quantity must be positive");
    assert_eq!(g.buy(0, 7, 0, 1).unwrap_err(), "Invalid selection");
    assert_eq!(g.buy(9, 0, 0, 1).unwrap_err(), "Invalid selection");
    assert_eq!(g.buy(0, 1, 0, 1).unwrap_err(), "Ship is not at this system");
    assert_eq!(g.buy(0, 0, 0, 16).unwrap_err(), "Not enough stock");
    assert_eq!(g.buy(0, 0, 0, 2).unwrap_err(), "Not enough cash");
    g.systems[0].prices[1] = 0;
    assert_eq!(g.buy(0, 0, 1, 1).unwrap_err(), "Item not for sale");
    g.systems[0].stock[2] = 40;
    g.ships[0].cash = 1_000_000;
    assert_eq!(g.buy(0, 0, 2, 31).unwrap_err(), "Exceeds tonnage limit");
    assert_eq!(g.ships[0].cargo, [0; 6]);
    assert_eq!(g.ships[0].cash, 1_000_000);
    assert_eq!(g.systems[0].stock[2], 40);
}

#[test]
fn sell_to_a_system_short_of_the_good() {
    let mut g = world();
    g.ships[0].location = 1;
    g.ships[0].cargo[0] = 12;
    g.ships[0].net_tonnage = 12;
    assert_eq!(g.sell(0, 1, 0, 11).unwrap_err(), "They'll consider up to 10 units");
    let msg = g.sell(0, 1, 0, 10).unwrap();
    assert_eq!(msg, "Sold 10 UR for $50000");
    assert_eq!(g.ships[0].cash, 55000);
    assert_eq!(g.ships[0].cargo[0], 2);
    assert_eq!(g.ships[0].net_tonnage, 2);
    assert_eq!(g.systems[1].stock[0], 5);
}

#[test]
fn sell_refusals_change_nothing() {
    let mut g = world();
    assert_eq!(g.sell(0, 0, 0, -1).unwrap_err(), "Quantity must be positive");
    assert_eq!(g.sell(0, 2, 0, 1).unwrap_err(), "Invalid selection");
    assert_eq!(g.sell(0, 1, 0, 1).unwrap_err(), "Ship is not at this system");
    assert_eq!(g.sell(0, 0, 0, 1).unwrap_err(), "Not enough cargo");
    g.ships[0].cargo[0] = 3;
    assert_eq!(g.sell(0, 0, 0, 1).unwrap_err(), "System not buying this good");
    assert_eq!(g.ships[0].cargo[0], 3);
    assert_eq!(g.ships[0].cash, 5000);
}

#[test]
fn buy_then_sell_back_restores_goods() {
    let mut g = world();
    g.systems[0].stock[0] = 1;
    g.buy(0, 0, 0, 1).unwrap();
    assert_eq!(g.systems[0].stock[0], 0);
    g.systems[0].stock[0] = -1;
    let before_stock = g.systems[0].stock[0];
    g.sell(0, 0, 0, 1).unwrap();
    assert_eq!(g.ships[0].cargo[0], 0);
    assert_eq!(g.ships[0].net_tonnage, 0);
    assert_eq!(g.systems[0].stock[0], before_stock + 1);
    assert_eq!(g.ships[0].cash, 5000);
}

#[test]
fn trade_sessions_open_at_listed_price() {
    let g = world();
    let s = g.start_trade_session(TradeKind::BuyFromSystem, 0, 0, 2, 5).unwrap();
    assert_eq!(
        s,
        TradeSession {
            kind: TradeKind::BuyFromSystem,
            ship_id: 0,
            system_id: 0,
            good_idx: 2,
            qty: 5,
            opening_price: 4000,
            round: 1,
            max_rounds: 3,
        }
    );
    let next = s.next_round();
    assert_eq!(next.round, 2);
    assert_eq!(next.qty, 5);
}

#[test]
fn trade_session_refusals() {
    let mut g = world();
    let buy = TradeKind::BuyFromSystem;
    let sell = TradeKind::SellToSystem;
    assert_eq!(g.start_trade_session(buy, 0, 0, 0, 0).unwrap_err(), "Quantity must be positive");
    assert_eq!(g.start_trade_session(buy, 3, 0, 0, 1).unwrap_err(), "Invalid selection");
    assert_eq!(g.start_trade_session(buy, 0, 1, 0, 1).unwrap_err(), "Ship is not at this system");
    assert_eq!(g.start_trade_session(buy, 0, 0, 1, 1).unwrap_err(), "Not enough stock");
    g.systems[0].stock[0] = 40;
    assert_eq!(g.start_trade_session(buy, 0, 0, 0, 31).unwrap_err(), "Exceeds tonnage limit");
    g.systems[0].prices[0] = 0;
    assert_eq!(g.start_trade_session(buy, 0, 0, 0, 1).unwrap_err(), "Item not for sale");
    assert_eq!(g.start_trade_session(sell, 0, 0, 0, 1).unwrap_err(), "Not enough cargo");
    g.ships[0].cargo[0] = 20;
    assert_eq!(g.start_trade_session(sell, 0, 0, 0, 1).unwrap_err(), "System not buying this good");
    g.systems[0].stock[0] = -3;
    assert_eq!(g.start_trade_session(sell, 0, 0, 0, 7).unwrap_err(), "They'll consider up to 6 units");
    assert_eq!(g.start_trade_session(sell, 0, 0, 0, 6).unwrap_err(), "Price unavailable");
    g.systems[0].prices[0] = 5000;
    assert!(g.start_trade_session(sell, 0, 0, 0, 6).is_ok());
}

#[test]
fn executing_agreed_trades() {
    let mut g = world();
    let s = g.start_trade_session(TradeKind::BuyFromSystem, 0, 0, 3, 1).unwrap();
    assert_eq!(g.execute_buy(&s, 5001).unwrap_err(), "Not enough cash");
    assert_eq!(g.execute_buy(&s, 4200).unwrap(), 4200);
    assert_eq!(g.ships[0].cash, 800);
    assert_eq!(g.ships[0].cargo[3], 1);
    assert_eq!(g.systems[0].stock[3], 9);

    g.ships[0].location = 1;
    g.systems[1].stock[3] = -2;
    let t = g.start_trade_session(TradeKind::SellToSystem, 0, 1, 3, 1).unwrap();
    assert_eq!(g.execute_sell(&t, 4700).unwrap(), 4700);
    assert_eq!(g.ships[0].cash, 5500);
    assert_eq!(g.ships[0].cargo[3], 0);
    assert_eq!(g.ships[0].net_tonnage, 0);
    assert_eq!(g.systems[1].stock[3], -1);
    assert_eq!(g.execute_sell(&t, 4700).unwrap_err(), "Not enough cargo");

    let bad = TradeSession { ship_id: 5, ..t };
    assert_eq!(g.execute_sell(&bad, 1).unwrap_err(), "Bad ship");
    let bad = TradeSession { system_id: 5, ..t };
    assert_eq!(g.execute_buy(&bad, 1).unwrap_err(), "Bad system");
}

#[test]
fn selections_cycle_and_wrap() {
    let mut g = world();
    g.cycle_ship(-1);
    assert_eq!(g.selected_ship, 1);
    g.cycle_ship(1);
    assert_eq!(g.selected_ship, 0);
    g.cycle_system(3);
    assert_eq!(g.selected_system, 1);
    g.cycle_good(-1);
    assert_eq!(g.selected_good, 5);
    g.cycle_good(1);
    assert_eq!(g.selected_good, 0);
    assert_eq!(g.selected_ship().unwrap().name, "PIONEER");
    assert_eq!(g.selected_system().unwrap().name, "YORK");
    g.selected_system = 9;
    assert!(g.selected_system().is_none());
    assert!(g.ship_at_system(0, 0));
    assert!(!g.ship_at_system(0, 1));
    assert!(!g.ship_at_system(4, 0));
}

#[test]
fn demo_world_sets_prices_and_routes() {
    // The markets are priced by the repricing function handed in, here a
    // fixed list (the floating-point price model belongs to the program),
    // and the routes follow the voyage plans handed in.
    let mut state = GameState::new_demo_world(42, &listed);
    let plans: Vec<Travel> = state
        .ships
        .iter()
        .map(|_| Travel { base_days: 91, first_delay_weeks: 1, second_delay_weeks: 0 })
        .collect();
    state.autopilot_demo_routes(&plans);

    assert_eq!(state.systems.len(), 2);
    assert_eq!(state.ships.len(), 2);

    for system in &state.systems {
        assert!(
            system.prices.iter().all(|price| *price >= 0),
            "{} has negative prices: {:?}",
            system.name,
            system.prices
        );
        assert!(
            system.prices.iter().any(|price| *price > 0),
            "{} should have at least one priced good",
            system.name
        );
    }

    for ship in &state.ships {
        assert!(ship.destination < state.systems.len());
        assert!(state.date.no_later_than(ship.eta));
    }
}

fn haggle_session(kind: TradeKind, round: usize) -> TradeSession {
    TradeSession {
        kind,
        ship_id: 0,
        system_id: 0,
        good_idx: 2,
        qty: 5,
        opening_price: 4000,
        round,
        max_rounds: 3,
    }
}

#[test]
fn non_positive_offers_are_refused_before_the_window() {
    let buy = haggle_session(TradeKind::BuyFromSystem, 1);
    match haggle_step(buy, 0, OfferBand::Acceptable) {
        HaggleStep::Refuse(m) => assert_eq!(m, "Offer must be positive"),
        other => panic!("unexpected {:?}", other),
    }
    let sell = haggle_session(TradeKind::SellToSystem, 1);
    match haggle_step(sell, -5, OfferBand::Acceptable) {
        HaggleStep::Refuse(m) => assert_eq!(m, "Price must be positive"),
        other => panic!("unexpected {:?}", other),
    }
}

#[test]
fn offers_follow_their_band() {
    let s = haggle_session(TradeKind::BuyFromSystem, 1);
    assert!(matches!(haggle_step(s, 100, OfferBand::TooLow), HaggleStep::TooLow));
    assert!(matches!(haggle_step(s, 100, OfferBand::TooHigh), HaggleStep::TooHigh));
    assert!(matches!(haggle_step(s, 100, OfferBand::Acceptable), HaggleStep::Accept));
}

#[test]
fn haggling_counters_until_the_final_round() {
    let s = haggle_session(TradeKind::BuyFromSystem, 2);
    match haggle_step(s, 100, OfferBand::Haggle) {
        HaggleStep::Counter(next) => {
            assert_eq!(next.round, 3);
            assert_eq!(next, TradeSession { round: 3, ..s });
        }
        other => panic!("unexpected {:?}", other),
    }
    let last = haggle_session(TradeKind::SellToSystem, 3);
    match haggle_step(last, 100, OfferBand::Haggle) {
        HaggleStep::Refuse(m) => assert_eq!(m, "They pass after final round."),
        other => panic!("unexpected {:?}", other),
    }
}
