use star_trader::chart::{plot_line, MapCell};
use star_trader::cli::desired_log_level;
use star_trader::display::abbrev;
use star_trader::panels::{map_details, right_aligned_count, ship_rows, TextRole};
use star_trader::starmap::{map_grid, MapTint};
use star_trader::date::GameDate;
use star_trader::keys::KeyBindings;
use star_trader::market::MarketUpdate;
use star_trader::screens::Screen;
use star_trader::session::App;
use star_trader::world::{GameState, StarSystem};

fn blank(w: usize, h: usize) -> Vec<Vec<MapCell<u8>>> {
    vec![vec![MapCell { ch: ' ', color: None }; w]; h]
}

fn marked(grid: &[Vec<MapCell<u8>>]) -> Vec<(usize, usize)> {
    let mut out = Vec::new();
    for (y, row) in grid.iter().enumerate() {
        for (x, cell) in row.iter().enumerate() {
            if cell.ch == '.' {
                out.push((x, y));
            }
        }
    }
    out
}

#[test]
fn route_line_marks_cells_up_to_the_end() {
    let mut grid = blank(6, 4);
    plot_line(&mut grid, 0, 0, 5, 2, '.', Some(3));
    // One cell per column of the longer side, the end cell excepted.
    assert_eq!(marked(&grid), vec![(0, 0), (1, 0), (2, 1), (3, 1), (4, 2)]);
    assert_eq!(grid[0][0].color, Some(3));
    assert_eq!(grid[2][5].ch, ' ');
}

#[test]
fn route_line_goes_backwards_and_steep() {
    let mut grid = blank(3, 5);
    plot_line(&mut grid, 2, 4, 1, 0, '.', None);
    let cells = marked(&grid);
    assert_eq!(cells.len(), 4);
    assert!(cells.contains(&(2, 4)));
    assert!(!cells.contains(&(1, 0)));
}

#[test]
fn route_line_keeps_drawn_cells_and_skips_outside() {
    let mut grid = blank(4, 1);
    grid[0][1] = MapCell { ch: 'O', color: Some(9) };
    grid[0][2] = MapCell { ch: '.', color: Some(7) };
    plot_line(&mut grid, -2, 0, 4, 0, '*', None);
    assert_eq!(grid[0][0].ch, '*');
    assert_eq!(grid[0][1].ch, 'O');
    assert_eq!(grid[0][1].color, Some(9));
    assert_eq!(grid[0][2].ch, '*');
    assert_eq!(grid[0][2].color, Some(7));
    assert_eq!(grid[0][3].ch, '*');
    let mut same = blank(2, 2);
    plot_line(&mut same, 1, 1, 1, 1, '.', None);
    assert!(marked(&same).is_empty());
}

fn args(list: &[&str]) -> Vec<String> {
    list.iter().map(|s| s.to_string()).collect()
}

#[test]
fn log_level_from_the_command_line() {
    assert_eq!(desired_log_level(&args(&["st", "--log"]), None), Some(String::from("info")));
    assert_eq!(desired_log_level(&args(&["st", "--log-level=debug"]), None), Some(String::from("debug")));
    assert_eq!(desired_log_level(&args(&["st", "--log-level", "trace"]), None), Some(String::from("trace")));
    assert_eq!(
        desired_log_level(&args(&["st", "x", "--log-level", "warn", "--log"]), None),
        Some(String::from("warn"))
    );
    assert_eq!(desired_log_level(&args(&["st", "--log-level"]), Some(String::from("error"))), Some(String::from("error")));
    assert_eq!(desired_log_level(&args(&["--log"]), None), None);
    assert_eq!(desired_log_level(&args(&[]), Some(String::from("info"))), Some(String::from("info")));
    assert_eq!(desired_log_level(&args(&["st", "--logs"]), None), None);
}

fn listed(s: &StarSystem, _d: GameDate) -> MarketUpdate {
    MarketUpdate { stock: s.stock, prices: [1; 6] }
}

#[test]
fn new_game_and_reset_wording() {
    let mut app = App::new(GameState::new_demo_world(1, &listed), KeyBindings::default());
    app.menu_index = 0;
    app.start_new_game(GameState::new_demo_world(2, &listed));
    assert_eq!(app.status_text(), "New game started. Press ? for help; v save, o load.");
    assert_eq!(app.events().to_vec(), vec![String::from("New game started")]);
    assert_eq!(app.screen(), Screen::Game);
    app.announce_menu_item();
    assert_eq!(app.status_text(), "New Game - Start a fresh demo run");
    app.reset_demo_state(GameState::new_demo_world(3, &listed));
    assert_eq!(app.status_text(), "Demo state reset.");
    assert_eq!(app.events().to_vec(), vec![String::from("Reset demo state")]);
}

#[test]
fn readiness_rejects_out_of_range_states() {
    let mut app = App::new(GameState::new_demo_world(1, &listed), KeyBindings::default());
    assert!(app.is_ready());
    app.state.ships[0].location = 5;
    assert!(!app.is_ready());
    app.state.ships[0].location = 0;
    app.state.systems[1].stock[2] = i32::MAX;
    assert!(!app.is_ready());
    app.state.systems[1].stock[2] = 0;
    app.state.selected_good = 6;
    assert!(!app.is_ready());
    app.state.selected_good = 0;
    app.stock_hi.pop();
    assert!(!app.is_ready());
}

fn demo_state() -> GameState {
    GameState::new_demo_world(42, &|s: &StarSystem, _d: GameDate| MarketUpdate { stock: s.stock, prices: [5000, 3500, 4000, 4500, 3000, 3000] })
}

#[test]
fn ship_rows_follow_the_panel_width() {
    let g = demo_state();
    let ship = &g.ships[0];
    let loc = g.systems[ship.location].name.clone();
    let dest = g.systems[ship.destination].name.clone();

    let wide = ship_rows(&g, 100);
    assert_eq!(wide.len(), g.ships.len());
    assert_eq!(
        wide[0],
        vec![
            ship.name.clone(),
            format!("{} → {}", loc, dest),
            format!("{:>3} / {}", ship.eta.day, ship.eta.year),
            format!("${}", ship.cash),
            format!("{}t", ship.net_tonnage),
        ]
    );

    let compact = ship_rows(&g, 70);
    assert_eq!(compact[0][1], format!("{}→{}", abbrev(&loc, 6), abbrev(&dest, 6)));
    assert_eq!(compact[0].len(), 5);

    let narrow = ship_rows(&g, 50);
    assert_eq!(
        narrow[0],
        vec![
            format!("{} {}→{}", abbrev(&ship.name, 8), abbrev(&loc, 4), abbrev(&dest, 4)),
            format!("${}", ship.cash),
            format!("{}t", ship.net_tonnage),
        ]
    );
}

#[test]
fn ship_eta_days_are_right_aligned() {
    assert_eq!(right_aligned_count(7, 3), "  7");
    assert_eq!(right_aligned_count(123, 3), "123");
    assert_eq!(right_aligned_count(4567, 3), "4567");
}

#[test]
fn map_details_describe_the_selection() {
    let g = demo_state();
    let app = App::new(g, KeyBindings::default());
    let lines = map_details(&app);
    let st = &app.state;
    let sys = &st.systems[st.selected_system];
    let ship = &st.ships[st.selected_ship];
    let texts: Vec<String> = lines.iter().map(|l| l.iter().map(|(t, _)| t.as_str()).collect::<String>()).collect();
    assert_eq!(texts.len(), 14);
    assert_eq!(texts[0], format!("System: {}", sys.name));
    assert_eq!(texts[1], format!("Class: {}", sys.class.label()));
    assert_eq!(texts[2], format!("Coords: ({}, {})", sys.coords.0, sys.coords.1));
    assert_eq!(texts[3], format!("Last update: day {} / {}", sys.last_update.day, sys.last_update.year));
    assert_eq!(texts[5], "");
    assert_eq!(texts[6], format!("Ship {}: {}", st.selected_ship + 1, ship.name));
    assert_eq!(texts[11], "");
    let cargo: Vec<String> = ["UR", "MET", "HE", "MED", "SOFT", "GEMS"]
        .iter()
        .enumerate()
        .map(|(k, c)| format!("{}:{}", c, ship.cargo[k]))
        .collect();
    assert_eq!(texts[10], format!("Cargo: {}", cargo.join(" ")));
    assert_eq!(texts[12], "Keys arrows move focus, Tab ships, Enter set course");
    assert_eq!(texts[13], "   r recenter, Esc close");
    assert_eq!(lines[0][0].1, TextRole::Label);
    assert_eq!(lines[0][2].1, TextRole::Value);
    assert_eq!(lines[13][1].1, TextRole::Key);
}

#[test]
fn map_details_without_ships() {
    let mut g = demo_state();
    g.ships.clear();
    let app = App::new(g, KeyBindings::default());
    let lines = map_details(&app);
    assert_eq!(lines.len(), 9);
    assert!(lines[5].is_empty() && lines[6].is_empty());
}

#[test]
fn map_grid_draws_lines_systems_routes_and_ships() {
    let mut g = demo_state();
    assert_eq!(g.systems.len(), 2);
    g.ships.truncate(1);
    g.selected_system = 0;
    g.selected_ship = 0;
    g.ships[0].location = 1;
    g.ships[0].destination = 0;
    let cols = vec![1, 8];
    let rows = vec![1, 3];
    let grid = map_grid(&g, &cols, &rows, 10, 5, &vec![0], &vec![4]);
    assert_eq!(grid.len(), 5);
    assert!(grid.iter().all(|r| r.len() == 10));
    // grid lines
    assert_eq!(grid[4][0].ch, '+');
    assert_eq!(grid[0][0].ch, '|');
    assert_eq!(grid[4][5].ch, '-');
    assert_eq!(grid[0][5].ch, ' ');
    assert_eq!(grid[0][0].color, Some(MapTint::Grid));
    // the selected system, which is also the destination: its letter stays
    assert_eq!(grid[1][1].ch, 'X');
    assert_eq!(grid[1][1].color, Some(MapTint::Selected));
    // the route from system 1 back to system 0 crosses every column between
    for x in 2..8 {
        let dots = (1..=3).filter(|&y| grid[y][x].ch == '.').count();
        assert_eq!(dots, 1, "column {}", x);
    }
    // the ship sits on system 1
    assert_eq!(grid[3][8].ch, '@');
    assert_eq!(grid[3][8].color, Some(MapTint::Ship(0)));
}

#[test]
fn destination_marker_and_ship_digit() {
    let mut g = demo_state();
    g.systems.truncate(2);
    g.ships.truncate(1);
    g.selected_system = 0;
    g.selected_ship = 0;
    g.ships[0].location = 5;
    g.ships[0].destination = 1;
    // Both systems on one cell: the later one shows.
    let grid = map_grid(&g, &vec![3, 3], &vec![2, 2], 6, 4, &vec![], &vec![]);
    assert_eq!(grid[2][3].ch, 'O');
    assert_eq!(grid[2][3].color, Some(MapTint::Class(g.systems[1].class)));
    // A ship at an unknown system is not drawn.
    assert!(grid.iter().flatten().all(|c| c.ch == ' ' || c.ch == 'O'));
}
