use star_trader::date::GameDate;
use star_trader::keys::{Command, Key, KeyBindings};
use star_trader::market::MarketUpdate;
use star_trader::screens::{ActivePanel, InputMode, Overlay, Screen};
use star_trader::session::{App, Effect, HaggleOutcome, contains_text};
use star_trader::trade::{TradeContext, TradeSession};
use star_trader::travel::Travel;
use star_trader::world::{GameState, StarSystem, TradeKind};

const LIST: [i32; 6] = [5000, 3500, 4000, 4500, 3000, 3000];

fn listed(s: &StarSystem, _d: GameDate) -> MarketUpdate {
    MarketUpdate { stock: s.stock, prices: LIST }
}

fn world() -> GameState {
    GameState::new_demo_world(7, &listed)
}

fn in_game() -> App {
    let mut app = App::new(world(), KeyBindings::default());
    app.apply_demo_state(world(), "Demo state reset.", "Reset demo state");
    app
}

fn press(app: &mut App, keys: &str) -> Effect {
    let mut last = Effect::Nothing;
    for c in keys.chars() {
        last = app.handle_key(Key::Char(c));
    }
    last
}

#[test]
fn launch_screen_gives_way_to_the_menu() {
    let mut app = App::new(world(), KeyBindings::default());
    assert_eq!(app.screen(), Screen::Launch);
    assert_eq!(app.status_text(), "Launching Star Trader...");
    assert!(app.is_ready());
    app.tick(false);
    assert_eq!(app.ticks(), 1);
    assert_eq!(app.screen(), Screen::Launch);
    app.tick(true);
    assert_eq!(app.screen(), Screen::Menu);
    assert_eq!(app.status_text(), "Main menu \u{2014} use Up/Down then Enter.");
}

#[test]
fn any_key_skips_the_launch_screen_keeping_a_notice() {
    let mut app = App::new(world(), KeyBindings::default());
    app.status = String::from("Main menu - save found; choose Load Game to resume.");
    assert_eq!(app.handle_key(Key::Char('x')), Effect::Nothing);
    assert_eq!(app.screen(), Screen::Menu);
    assert_eq!(app.status_text(), "Main menu - save found; choose Load Game to resume.");
}

#[test]
fn menu_navigation() {
    let mut app = App::new(world(), KeyBindings::default());
    app.finish_launch();
    assert_eq!(app.handle_key(Key::Down), Effect::Nothing);
    assert_eq!(app.menu_index(), 1);
    assert_eq!(app.status_text(), "Load Game - Resume the last save");
    app.handle_key(Key::Up);
    app.handle_key(Key::Up);
    assert_eq!(app.menu_index(), 4);
    assert_eq!(app.status_text(), "Quit - Exit Star Trader");
    app.handle_key(Key::Down);
    assert_eq!(app.menu_index(), 0);
    assert_eq!(app.handle_key(Key::Enter), Effect::MenuNewGame);
    app.handle_key(Key::Down);
    assert_eq!(app.handle_key(Key::Enter), Effect::MenuLoad);
    app.handle_key(Key::Down);
    assert_eq!(app.handle_key(Key::Enter), Effect::Nothing);
    assert_eq!(app.screen(), Screen::Instructions);
    assert_eq!(app.status_text(), "Instructions - Controls and gameplay tips");
    assert_eq!(app.handle_key(Key::Esc), Effect::Nothing);
    assert_eq!(app.screen(), Screen::Menu);
    app.handle_key(Key::Char('q'));
    assert!(app.should_quit());
}

#[test]
fn new_game_starts_on_the_game_screen() {
    let app = in_game();
    assert_eq!(app.screen(), Screen::Game);
    assert_eq!(app.status_text(), "Demo state reset.");
    assert_eq!(app.events().to_vec(), vec![String::from("Reset demo state")]);
    assert_eq!(app.active_panel, ActivePanel::Systems);
    assert_eq!(app.ticks(), 0);
    assert_eq!(app.cargo_hi.len(), 2);
    assert_eq!(app.stock_hi[1].len(), 6);
}

#[test]
fn panels_and_goods_keys() {
    let mut app = in_game();
    press(&mut app, "2");
    assert_eq!(app.active_panel, ActivePanel::Market);
    assert_eq!(app.status_text(), "Focused Market");
    app.handle_key(Key::Down);
    assert_eq!(app.state.selected_good, 1);
    press(&mut app, "]]");
    assert_eq!(app.state.selected_good, 3);
    press(&mut app, "3");
    assert_eq!(app.status_text(), "Focused Ships");
    app.handle_key(Key::Right);
    assert_eq!(app.state.selected_ship, 1);
    press(&mut app, "1");
    app.handle_key(Key::Left);
    assert_eq!(app.state.selected_system, 1);
}

#[test]
fn buying_through_the_input_bar() {
    let mut app = in_game();
    press(&mut app, "b");
    assert_eq!(app.input_mode, Some(InputMode::Buy));
    assert_eq!(app.status_text(), "Buy qty (UR, stock 15, ton left 30)");
    press(&mut app, "40");
    app.handle_key(Key::Backspace);
    assert_eq!(app.input_buffer, "4");
    let effect = app.handle_key(Key::Enter);
    let session = TradeSession {
        kind: TradeKind::BuyFromSystem,
        ship_id: 0,
        system_id: 0,
        good_idx: 0,
        qty: 4,
        opening_price: 5000,
        round: 1,
        max_rounds: 3,
    };
    assert_eq!(effect, Effect::OpenHaggle(session));
    assert_eq!(app.pending_trade, Some(TradeContext::from_session(session)));
    assert_eq!(app.input_mode, Some(InputMode::TradePrice));
    press(&mut app, "19000");
    assert_eq!(app.handle_key(Key::Enter), Effect::Haggle(session, 19000));
    assert_eq!(app.pending_trade, None);
    app.finish_haggle(HaggleOutcome::Counter(session.next_round(), String::from("Countered; new ask about $20000")));
    assert_eq!(app.status_text(), "Countered; new ask about $20000");
    assert_eq!(app.input_mode, Some(InputMode::TradePrice));
    assert_eq!(app.pending_trade, Some(TradeContext { session: session.next_round() }));
}

#[test]
fn refused_quantities_keep_the_prompt_open() {
    let mut app = in_game();
    press(&mut app, "b");
    press(&mut app, "99");
    assert_eq!(app.handle_key(Key::Enter), Effect::Nothing);
    assert_eq!(app.status_text(), "Not enough stock. Buy qty (UR, stock 15, ton left 30)");
    assert_eq!(app.input_mode, Some(InputMode::Buy));
    assert_eq!(app.events().last().unwrap(), "Not enough stock");
    assert_eq!(app.handle_key(Key::Enter), Effect::Nothing);
    assert_eq!(app.status_text(), "Enter a quantity. Buy qty (UR, stock 15, ton left 30)");
    app.handle_key(Key::Esc);
    assert_eq!(app.input_mode, None);
    assert_eq!(app.status_text(), "Canceled.");
    press(&mut app, "s");
    assert_eq!(app.status_text(), "Sell qty (UR, cargo 0)");
}

#[test]
fn banking_through_the_input_bar() {
    let mut app = in_game();
    press(&mut app, "k");
    assert_eq!(app.status_text(), "Deposit amount (ship $5000, bank $0)");
    press(&mut app, "100");
    assert_eq!(app.handle_key(Key::Enter), Effect::Deposit(100));
    app.finish_deposit(100, 0);
    assert_eq!(app.status_text(), "Deposited $100");
    assert_eq!(app.state.bank_balance, 100);
    assert_eq!(app.state.ships[0].cash, 4900);
    press(&mut app, "l");
    assert_eq!(app.status_text(), "Withdraw amount (bank $100, ship $4900)");
    press(&mut app, "500");
    assert_eq!(app.handle_key(Key::Enter), Effect::Withdraw(500));
    app.finish_withdraw(500, 0);
    assert_eq!(app.status_text(), "Not enough in bank");
    assert_eq!(app.input_mode, Some(InputMode::Withdraw));
}

#[test]
fn courses_arrivals_and_overlays() {
    let mut app = in_game();
    app.state.selected_system = 1;
    assert_eq!(press(&mut app, "g"), Effect::SetCourse);
    app.set_course(Travel { base_days: 91, first_delay_weeks: 0, second_delay_weeks: 0 });
    assert_eq!(app.status_text(), "PIONEER set course to YORK \u{2014} ETA day 92, year 2070");
    assert_eq!(press(&mut app, "n"), Effect::NextArrival);
    app.next_arrival((3, 3), &listed, 0);
    // VENTURE was never sent anywhere: it is due on the first day.
    assert_eq!(
        app.status_text(),
        "VENTURE arrived at YORK | New frontier system discovered: FRONTIER-3 at (3,3)"
    );
    assert_eq!(app.state.date, GameDate::new(1, 2070));
    assert_eq!(app.state.systems.len(), 3);
    press(&mut app, "m");
    assert_eq!(app.overlay(), Some(Overlay::StarMap));
    assert_eq!(app.status_text(), "Map overlay \u{2014} Esc to close");
    press(&mut app, "t");
    assert_eq!(app.overlay(), Some(Overlay::Report));
    press(&mut app, "t");
    assert_eq!(app.overlay(), None);
    assert_eq!(app.status_text(), "Closed overlay");
    press(&mut app, "?");
    assert_eq!(app.overlay(), Some(Overlay::Help));
    assert_eq!(app.handle_key(Key::Esc), Effect::Nothing);
    assert_eq!(app.overlay(), None);
}

#[test]
fn jump_to_a_system_by_number() {
    let mut app = in_game();
    press(&mut app, "p");
    assert_eq!(app.status_text(), "Destination system # (1-2)");
    press(&mut app, "2");
    assert_eq!(app.handle_key(Key::Enter), Effect::SetCourse);
    assert_eq!(app.state.selected_system, 1);
    press(&mut app, "p");
    press(&mut app, "9");
    assert_eq!(app.handle_key(Key::Enter), Effect::Nothing);
    assert_eq!(app.status_text(), "No such system. Destination system # (1-2)");
}

#[test]
fn session_keys_are_left_to_the_program() {
    let mut app = in_game();
    assert_eq!(press(&mut app, "v"), Effect::Save);
    assert_eq!(press(&mut app, "o"), Effect::Load);
    assert_eq!(press(&mut app, "r"), Effect::Reset);
    assert_eq!(press(&mut app, "z"), Effect::Nothing);
    press(&mut app, "q");
    assert!(app.should_quit());
}

#[test]
fn event_log_keeps_six_entries() {
    let mut app = in_game();
    for i in 0..10 {
        app.log_event(format!("event {i}"));
    }
    let events = app.events().to_vec();
    assert_eq!(events.len(), 6);
    assert_eq!(events[0], "event 4");
    assert_eq!(events[5], "event 9");
}

#[test]
fn highlights_follow_changes() {
    let mut app = in_game();
    app.update_highlights();
    assert_eq!(app.bank_highlight(), None);
    app.state.bank_balance = 250;
    app.state.ships[1].cash = 4000;
    app.state.systems[0].prices[2] = 4100;
    app.update_highlights();
    assert_eq!(app.bank_highlight(), Some(250));
    assert_eq!(app.ship_cash_highlight(1), Some(-1000));
    assert_eq!(app.ship_cash_highlight(0), None);
    assert_eq!(app.price_highlight(0, 2), Some(100));
    assert_eq!(app.stock_highlight(0, 2), None);
    for _ in 0..15 {
        app.tick(false);
    }
    assert_eq!(app.bank_highlight(), None);
}

#[test]
fn key_hints_per_screen() {
    let mut app = App::new(world(), KeyBindings::default());
    let hints = app.key_hints();
    assert_eq!(hints[0], (String::from("Any key"), String::from("skip")));
    app.finish_launch();
    assert_eq!(app.key_hints()[2], (String::from("Esc/q"), String::from("quit")));
    let game = in_game().key_hints();
    assert_eq!(game.len(), 16);
    assert_eq!(game[0], (String::from("1/2/3"), String::from("focus panels")));
    assert_eq!(game[6], (String::from("p #"), String::from("jump system")));
    assert_eq!(game[15], (String::from("q"), String::from("quit")));
}

#[test]
fn key_binding_notices() {
    let mut app = in_game();
    app.announce_keybindings(String::from("Loaded keybindings from keybindings.json"));
    assert_eq!(app.status_text(), "Demo state reset.");
    app.announce_keybindings(String::from("Keybindings parse failed: oops"));
    assert_eq!(app.status_text(), "Keybindings parse failed: oops");
    assert!(contains_text("Keybindings fallback to defaults", "fallback"));
    assert!(!contains_text("fall", "fallback"));
}

#[test]
fn loading_a_saved_game() {
    let mut app = in_game();
    let mut saved = in_game();
    saved.ticks = 42;
    saved.state.bank_balance = 1234;
    saved.events.push(String::from("Test event"));
    app.finish_load(saved, KeyBindings::default(), None);
    assert_eq!(app.ticks(), 42);
    assert_eq!(app.state.bank_balance, 1234);
    assert_eq!(app.screen(), Screen::Game);
    assert_eq!(app.status_text(), "Loaded from savegame.json");
    assert_eq!(app.events().last().unwrap(), "Loaded from savegame.json");
    assert!(app.events().contains(&String::from("Test event")));
}

#[test]
fn rebound_keys_drive_the_game() {
    let mut cfg: [Option<String>; 21] = Default::default();
    cfg[8] = Some(String::from("x"));
    let kb = KeyBindings::from_config(&cfg).unwrap();
    assert_eq!(kb.key(Command::Buy), Key::Char('x'));
    let mut app = in_game();
    app.keybinds = kb;
    press(&mut app, "x");
    assert_eq!(app.input_mode, Some(InputMode::Buy));
}

#[test]
fn overlay_keys_move_selections() {
    let mut app = in_game();
    press(&mut app, "m");
    app.handle_key(Key::Tab);
    assert_eq!(app.state.selected_ship, 1);
    app.handle_key(Key::BackTab);
    assert_eq!(app.state.selected_ship, 0);
    app.handle_key(Key::Up);
    assert_eq!(app.state.selected_ship, 1);
    app.handle_key(Key::Right);
    assert_eq!(app.state.selected_system, 1);
    app.handle_key(Key::Char('R'));
    assert_eq!(app.state.selected_system, 0);
    assert_eq!(app.handle_key(Key::Enter), Effect::SetCourse);
    assert_eq!(app.overlay(), Some(Overlay::StarMap));
    assert_eq!(app.handle_key(Key::Char('z')), Effect::Nothing);
    // On the map, r recentres even though it is also the reset key.
    app.state.selected_system = 1;
    assert_eq!(app.handle_key(Key::Char('r')), Effect::Nothing);
    assert_eq!(app.state.selected_system, 0);
    assert_eq!(app.overlay(), Some(Overlay::StarMap));
    press(&mut app, "m");
    assert_eq!(app.status_text(), "Closed overlay");
    assert_eq!(app.overlay(), None);
}

#[test]
fn tab_cycles_ships_on_the_game_screen() {
    let mut app = in_game();
    assert_eq!(app.handle_key(Key::Tab), Effect::Nothing);
    assert_eq!(app.state.selected_ship, 1);
    app.handle_key(Key::Tab);
    assert_eq!(app.state.selected_ship, 0);
    app.handle_key(Key::BackTab);
    assert_eq!(app.state.selected_ship, 1);
    assert_eq!(app.state.selected_system, 0);
}

#[test]
fn system_number_zero_is_refused() {
    let mut app = in_game();
    press(&mut app, "p");
    press(&mut app, "0");
    assert_eq!(app.handle_key(Key::Enter), Effect::Nothing);
    assert_eq!(app.status_text(), "No such system. Destination system # (1-2)");
    assert_eq!(app.input_mode, Some(InputMode::SetDestination));
    assert_eq!(app.state.selected_system, 0);
    press(&mut app, "1");
    assert_eq!(app.handle_key(Key::Enter), Effect::SetCourse);
    assert_eq!(app.input_mode, None);
}

#[test]
fn empty_price_keeps_the_negotiation() {
    let mut app = in_game();
    press(&mut app, "b1");
    let effect = app.handle_key(Key::Enter);
    let pending = app.pending_trade;
    assert!(matches!(effect, Effect::OpenHaggle(_)));
    assert_eq!(app.handle_key(Key::Enter), Effect::Nothing);
    assert_eq!(app.status_text(), "Enter a price");
    assert_eq!(app.pending_trade, pending);
    assert_eq!(app.input_mode, Some(InputMode::TradePrice));
    press(&mut app, "x");
    assert_eq!(app.input_buffer, "");
}

#[test]
fn picking_a_destination_with_arrows() {
    let mut app = in_game();
    press(&mut app, "d");
    assert_eq!(app.input_mode, Some(InputMode::PickDestination));
    assert_eq!(app.status_text(), "Pick destination with arrows, Enter to set, Esc to cancel.");
    app.handle_key(Key::Down);
    assert_eq!(app.state.selected_system, 1);
    assert_eq!(app.handle_key(Key::Enter), Effect::SetCourse);
    assert_eq!(app.input_mode, None);
}

#[test]
fn a_second_refresh_keeps_the_highlights() {
    let mut app = in_game();
    app.update_highlights();
    app.state.bank_balance = 250;
    app.state.ships[1].cash = 4000;
    let before = app.state.systems[0].stock[3];
    app.state.systems[0].stock[3] = before + 7;
    app.update_highlights();
    app.tick(false);
    app.update_highlights();
    assert_eq!(app.bank_highlight(), Some(250));
    assert_eq!(app.ship_cash_highlight(1), Some(-1000));
    assert_eq!(app.stock_highlight(0, 3), Some(7));
    assert_eq!(app.price_highlight(0, 2), None);
}

#[test]
fn a_settled_offer_leaves_price_entry() {
    let mut app = in_game();
    press(&mut app, "b1");
    let session = match app.handle_key(Key::Enter) {
        Effect::OpenHaggle(s) => s,
        other => panic!("unexpected {:?}", other),
    };
    press(&mut app, "5000");
    assert_eq!(app.handle_key(Key::Enter), Effect::Haggle(session, 5000));
    assert_eq!(app.input_mode, None);
    assert_eq!(app.pending_trade, None);
    assert!(!app.should_quit());
    app.finish_haggle(HaggleOutcome::Reject(String::from("Rejected: too low (<4500)")));
    assert_eq!(app.input_mode, None);
    assert_eq!(app.status_text(), "Rejected: too low (<4500)");
}

#[test]
fn a_system_number_leads_to_the_route_report() {
    let mut app = in_game();
    press(&mut app, "p");
    press(&mut app, "2");
    assert_eq!(app.handle_key(Key::Enter), Effect::SetCourse);
    assert_eq!(app.state.selected_system, 1);
    assert_eq!(app.input_mode, None);
    assert!(!app.should_quit());
    assert!(app.is_ready());
    app.set_course(Travel { base_days: 91, first_delay_weeks: 0, second_delay_weeks: 0 });
    assert_eq!(app.status_text(), "PIONEER set course to YORK \u{2014} ETA day 92, year 2070");
    assert_eq!(app.events().last().map(|s| s.as_str()), Some("PIONEER set course to YORK \u{2014} ETA day 92, year 2070"));
}

#[test]
fn a_highlight_lasts_fourteen_ticks() {
    let mut app = in_game();
    app.update_highlights();
    app.state.bank_balance = 250;
    app.update_highlights();
    for _ in 0..14 {
        app.tick(false);
    }
    assert_eq!(app.bank_highlight(), Some(250));
    app.tick(false);
    assert_eq!(app.bank_highlight(), None);
}

#[test]
fn a_new_game_focuses_the_systems_panel() {
    let mut app = in_game();
    app.active_panel = ActivePanel::Ships;
    app.input_buffer = String::from("12");
    app.start_new_game(world());
    assert_eq!(app.active_panel, ActivePanel::Systems);
    assert_eq!(app.input_buffer, "");
    assert_eq!(app.screen(), Screen::Game);
}
