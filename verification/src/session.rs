use vstd::prelude::*;
use vstd::string::*;

use crate::keys::{Command, Key, KeyBindings};
use crate::screens::{ActivePanel, Highlight, InputMode, MENU_LEN, MenuItem, Overlay, Screen, menu_items};
use crate::goods::{HEAVY_GOODS, Merchandise};
use crate::text::{decimal, push_count, push_decimal, text};
use crate::date::GameDate;
use crate::market::MarketUpdate;
use crate::parse::{parse_i32, parsed_i32};
use crate::trade::{TradeContext, TradeSession, context_of};
use crate::travel::Travel;
use crate::world::{StarSystem, TradeKind};
use crate::world::{GameState, MAX_SYSTEMS};
use crate::arrivals::has_voyages;

verus! {

/// How many event lines the log keeps.
pub const EVENT_LOG_LIMIT: usize = 6;

/// How many ticks a change stays highlighted.
pub const HIGHLIGHT_TICKS: u64 = 14;

/// Largest magnitude of an `i32` figure (stock, cargo, price, tonnage) in a
/// state the game accepts: the largest for which the sum or difference of
/// two figures, and twice a figure, still fit in an `i32`.
pub const FIGURE_LIMIT: i32 = 1073741823;

/// Largest magnitude of a credit amount in a state the game accepts: the
/// largest for which the sum of two amounts and an `i32` figure, and the
/// difference of two amounts, still fit in an `i64`.
pub const CREDIT_LIMIT: i64 = 4611686016279904256;

/// What the program around the game has to do after a key press, because it
/// involves floating point, chance, files or the clock.
#[derive(Debug, Clone, Copy, PartialEq, Eq, Structural)]
pub enum Effect {
    /// Nothing more to do.
    Nothing,
    /// Plan the voyage that `GameState::selected_route_request` describes and
    /// pass it to `App::set_course`.
    SetCourse,
    /// Call `App::next_arrival` with the price model.
    NextArrival,
    /// Reckon the interest due and call `App::finish_deposit` with this amount.
    Deposit(i64),
    /// Reckon the interest due and call `App::finish_withdraw` with this amount.
    Withdraw(i64),
    /// A negotiation opened (`App::pending_trade`); show its price prompt.
    OpenHaggle(TradeSession),
    /// Judge this offer in the pending negotiation and call `App::finish_haggle`.
    Haggle(TradeSession, i32),
    /// Save the game and call `App::report`.
    Save,
    /// Load the saved game (`App::finish_load`), or `App::report` the failure.
    Load,
    /// Start a new demo game with `App::apply_demo_state` ("reset" wording).
    Reset,
    /// As `Reset`, with the "new game" wording, then `App::announce_menu_item`.
    MenuNewGame,
    /// As `Load`, then `App::announce_menu_item`.
    MenuLoad,
}

/// The figures of a game that highlights compare against: bank balance,
/// each ship's cash, tonnage and cargo, each system's stock and prices.
pub struct Snapshot {
    pub bank_balance: i64,
    pub ships: Vec<(i64, i32, [i32; 6])>,
    pub systems: Vec<([i32; 6], [i32; 6])>,
}

/// A negotiation's result, as the price judge reports it.
pub enum HaggleOutcome {
    Accept(String),
    Counter(TradeSession, String),
    Reject(String),
}

/// The program's state: the game, the screen and its panels, the input
/// bar, the event log and the change highlights.
pub struct App {
    pub state: GameState,
    pub quit: bool,
    pub ticks: u64,
    pub status: String,
    pub input_mode: Option<InputMode>,
    pub input_buffer: String,
    pub pending_trade: Option<TradeContext>,
    pub overlay: Option<Overlay>,
    pub prev_state: Option<Snapshot>,
    pub events: Vec<String>,
    pub bank_hi: Highlight,
    pub ship_cash_hi: Vec<Highlight>,
    pub ship_ton_hi: Vec<Highlight>,
    pub cargo_hi: Vec<Vec<Highlight>>,
    pub stock_hi: Vec<Vec<Highlight>>,
    pub price_hi: Vec<Vec<Highlight>>,
    pub screen: Screen,
    pub menu_index: usize,
    pub active_panel: ActivePanel,
    pub keybinds: KeyBindings,
}

/// An `i32` figure within the accepted range.
pub open spec fn figure_ok(x: int) -> bool {
    -FIGURE_LIMIT <= x <= FIGURE_LIMIT
}

/// A credit amount within the accepted range.
pub open spec fn credits_ok(x: int) -> bool {
    -CREDIT_LIMIT <= x <= CREDIT_LIMIT
}

/// All six figures in range.
pub open spec fn figures_ok(a: Seq<i32>) -> bool {
    forall|g: int| 0 <= g < a.len() ==> figure_ok(#[trigger] a[g] as int)
}

/// The log after recording `msg`: the oldest line goes once there are more
/// than six.
pub open spec fn logged(events: Seq<String>, msg: String) -> Seq<String> {
    let e = events.push(msg);
    if e.len() > EVENT_LOG_LIMIT {
        e.drop_first()
    } else {
        e
    }
}

/// `pattern` occurs in `s`.
pub open spec fn has_infix(s: Seq<char>, pattern: Seq<char>) -> bool {
    exists|i: int| 0 <= i && i + pattern.len() <= s.len() && #[trigger] s.subrange(i, i + pattern.len()) == pattern
}

/// Whether `pattern` occurs in `s`, as `str::contains` answers.
pub fn contains_text(s: &str, pattern: &str) -> (r: bool)
    ensures
        r == has_infix(s@, pattern@),
{
    let n = s.unicode_len();
    let m = pattern.unicode_len();
    if m > n {
        proof {
            assert forall|i: int| 0 <= i && i + pattern@.len() <= s@.len() implies #[trigger] s@.subrange(i, i + pattern@.len()) != pattern@ by {}
        }
        return false;
    }
    let mut i: usize = 0;
    while i <= n - m
        invariant
            n == s@.len(),
            m == pattern@.len(),
            m <= n,
            i <= n - m + 1,
            forall|k: int| 0 <= k < i ==> #[trigger] s@.subrange(k, k + m) != pattern@,
        decreases n - i,
    {
        let mut j: usize = 0;
        let mut same = true;
        while j < m
            invariant
                n == s@.len(),
                m == pattern@.len(),
                i + m <= n,
                j <= m,
                same == (forall|t: int| 0 <= t < j ==> s@[i + t] == pattern@[t]),
            decreases m - j,
        {
            if s.get_char(i + j) != pattern.get_char(j) {
                same = false;
            }
            j = j + 1;
        }
        if same {
            proof {
                assert(s@.subrange(i as int, i + m) =~= pattern@);
            }
            return true;
        }
        proof {
            let t = choose|t: int| 0 <= t < m && s@[i + t] != pattern@[t];
            assert(s@.subrange(i as int, i + m)[t] != pattern@[t]);
        }
        i = i + 1;
    }
    proof {
        assert forall|k: int| 0 <= k && k + pattern@.len() <= s@.len() implies #[trigger] s@.subrange(k, k + pattern@.len()) != pattern@ by {
            assert(k < i);
        }
    }
    false
}

/// `String::push`: appends one character.
#[verifier::external_body]
fn push_char(s: &mut String, c: char)
    ensures
        final(s)@ == old(s)@.push(c),
{
    s.push(c);
}

/// `n` copies of the empty highlight.
fn blank_highlights(n: usize) -> (r: Vec<Highlight>)
    ensures
        r@ == Seq::new(n as nat, |i: int| Highlight { until: 0, delta: 0 }),
{
    let mut r: Vec<Highlight> = Vec::new();
    let mut i: usize = 0;
    while i < n
        invariant
            i <= n,
            r@ == Seq::new(i as nat, |k: int| Highlight { until: 0, delta: 0 }),
        decreases n - i,
    {
        r.push(Highlight::none());
        i = i + 1;
        assert(r@ =~= Seq::new(i as nat, |k: int| Highlight { until: 0, delta: 0 }));
    }
    r
}

/// `n` rows of `width` empty highlights.
fn blank_rows(n: usize, width: usize) -> (r: Vec<Vec<Highlight>>)
    ensures
        r@.len() == n,
        forall|i: int| 0 <= i < n ==> (#[trigger] r@[i])@ == Seq::new(width as nat, |k: int| Highlight { until: 0, delta: 0 }),
{
    let mut r: Vec<Vec<Highlight>> = Vec::new();
    let mut i: usize = 0;
    while i < n
        invariant
            i <= n,
            r@.len() == i,
            forall|k: int| 0 <= k < i ==> (#[trigger] r@[k])@ == Seq::new(width as nat, |t: int| Highlight { until: 0, delta: 0 }),
        decreases n - i,
    {
        r.push(blank_highlights(width));
        i = i + 1;
    }
    r
}

impl App {
    /// The figures of `state` are within the accepted ranges, so that no
    /// game arithmetic on them overflows.
    pub open spec fn figures_in_range(state: &GameState) -> bool {
        &&& figure_ok(state.max_tonnage as int)
        &&& credits_ok(state.bank_balance as int)
        &&& forall|i: int| #![trigger state.ships@[i]] 0 <= i < state.ships@.len() ==> {
            &&& credits_ok(state.ships@[i].cash as int)
            &&& figure_ok(state.ships@[i].net_tonnage as int)
            &&& figures_ok(state.ships@[i].cargo@)
        }
        &&& forall|j: int| #![trigger state.systems@[j]] 0 <= j < state.systems@.len() ==> {
            &&& figures_ok(state.systems@[j].stock@)
            &&& figures_ok(state.systems@[j].prices@)
        }
    }

    /// The state the program can act on: a well-formed game with figures in
    /// range, room left in the calendar and the galaxy, and highlight tables
    /// of matching shapes.
    pub open spec fn wf(&self) -> bool {
        &&& self.state.wf()
        &&& App::figures_in_range(&self.state)
        &&& self.state.calendar_room()
        &&& self.state.systems@.len() <= MAX_SYSTEMS
        &&& self.state.ships@.len() <= i32::MAX
        &&& self.ticks <= u64::MAX - HIGHLIGHT_TICKS
        &&& self.menu_index < usize::MAX
        &&& self.ship_cash_hi@.len() == self.ship_ton_hi@.len()
        &&& self.stock_hi@.len() == self.price_hi@.len()
        &&& forall|i: int| 0 <= i < self.stock_hi@.len() ==> (#[trigger] self.stock_hi@[i])@.len() == self.price_hi@[i]@.len()
        &&& self.prev_state matches Some(p) ==> p.in_range()
    }

    /// Records `msg` in the event log (see `logged`).
    pub fn log_event(&mut self, msg: String)
        ensures
            final(self).events@ == logged(old(self).events@, msg),
            *final(self) == (App { events: final(self).events, ..*old(self) }),
    {
        self.events.push(msg);
        if self.events.len() > EVENT_LOG_LIMIT {
            self.events.remove(0);
            assert(self.events@ =~= old(self).events@.push(msg).drop_first());
        }
    }

    /// Closes every modal: input bar, pending negotiation and overlay.
    pub fn clear_modals(&mut self)
        ensures
            final(self).input_buffer@ == Seq::<char>::empty(),
            *final(self) == (App {
                input_mode: None,
                input_buffer: final(self).input_buffer,
                pending_trade: None,
                overlay: None,
                ..*old(self)
            }),
    {
        self.input_mode = None;
        self.input_buffer = String::new();
        self.pending_trade = None;
        self.overlay = None;
    }

    /// Shows the main menu with the first entry chosen.
    pub fn enter_menu(&mut self)
        ensures
            final(self).input_buffer@ == Seq::<char>::empty(),
            final(self).status@ == "Main menu \u{2014} use Up/Down then Enter."@,
            *final(self) == (App {
                input_mode: None,
                input_buffer: final(self).input_buffer,
                pending_trade: None,
                overlay: None,
                screen: Screen::Menu,
                menu_index: 0,
                status: final(self).status,
                ..*old(self)
            }),
    {
        self.clear_modals();
        self.screen = Screen::Menu;
        self.menu_index = 0;
        self.status = text("Main menu \u{2014} use Up/Down then Enter.");
    }

    pub fn request_quit(&mut self)
        ensures
            *final(self) == (App { quit: true, ..*old(self) }),
    {
        self.quit = true;
    }

    pub fn should_quit(&self) -> (r: bool)
        ensures
            r == self.quit,
    {
        self.quit
    }

    /// Leaves the launch screen for the main menu, keeping a status message
    /// that something other than the launch banner has set.
    pub fn finish_launch(&mut self)
        ensures
            old(self).screen != Screen::Launch ==> *final(self) == *old(self),
            old(self).screen == Screen::Launch ==> {
                &&& final(self).input_buffer@ == Seq::<char>::empty()
                &&& final(self).status@ == (if old(self).status@ != "Launching Star Trader..."@ {
                    old(self).status@
                } else {
                    "Main menu \u{2014} use Up/Down then Enter."@
                })
                &&& *final(self) == (App {
                    input_mode: None,
                    input_buffer: final(self).input_buffer,
                    pending_trade: None,
                    overlay: None,
                    screen: Screen::Menu,
                    menu_index: 0,
                    status: final(self).status,
                    ..*old(self)
                })
            },
    {
        if self.screen == Screen::Launch {
            let banner = text("Launching Star Trader...");
            let preserve = if self.status != banner {
                Some(self.status.clone())
            } else {
                None
            };
            self.enter_menu();
            match preserve {
                Some(status) => {
                    self.status = status;
                },
                None => {},
            }
        }
    }

    /// One clock tick: the tick count grows (stopping at the largest count)
    /// and the launch screen gives way to the menu once its time is up.
    pub fn tick(&mut self, launch_time_up: bool)
        ensures
            final(self).ticks == (if old(self).ticks == u64::MAX { u64::MAX } else { (old(self).ticks + 1) as u64 }),
            !(old(self).screen == Screen::Launch && launch_time_up) ==> *final(self) == (App {
                ticks: final(self).ticks,
                ..*old(self)
            }),
            old(self).screen == Screen::Launch && launch_time_up ==> final(self).screen == Screen::Menu,
    {
        self.ticks = if self.ticks == u64::MAX { u64::MAX } else { self.ticks + 1 };
        if self.screen == Screen::Launch && launch_time_up {
            self.finish_launch();
        }
    }

    /// The status line for the chosen menu entry: its label and detail.
    pub fn announce_menu_item(&mut self)
        ensures
            old(self).menu_index < MENU_LEN ==> final(self).status@ == menu_items()[old(self).menu_index as int].label_text()
                + " - "@ + menu_items()[old(self).menu_index as int].detail_text(),
            old(self).menu_index >= MENU_LEN ==> final(self).status == old(self).status,
            *final(self) == (App { status: final(self).status, ..*old(self) }),
    {
        match MenuItem::at(self.menu_index) {
            Some(item) => {
                let mut s = text(item.label());
                s.append(" - ");
                s.append(item.detail());
                self.status = s;
            },
            None => {},
        }
    }
}

/// `b` is `a` with the status line replaced.
pub open spec fn restatus(a: App, b: App) -> bool {
    b == (App { status: b.status, ..a })
}

/// The blank highlight tables for a game: one entry per ship for cash and
/// tonnage, six per ship for cargo, six per system for stock and prices.
pub open spec fn blank_tables(app: &App, state: &GameState) -> bool {
    let blank = Highlight { until: 0, delta: 0 };
    &&& app.ship_cash_hi@ == Seq::new(state.ships@.len(), |i: int| blank)
    &&& app.ship_ton_hi@ == Seq::new(state.ships@.len(), |i: int| blank)
    &&& app.cargo_hi@.len() == state.ships@.len()
    &&& forall|i: int| 0 <= i < state.ships@.len() ==> (#[trigger] app.cargo_hi@[i])@ == Seq::new(6, |k: int| blank)
    &&& app.stock_hi@.len() == state.systems@.len()
    &&& forall|i: int| 0 <= i < state.systems@.len() ==> (#[trigger] app.stock_hi@[i])@ == Seq::new(6, |k: int| blank)
    &&& app.price_hi@.len() == state.systems@.len()
    &&& forall|i: int| 0 <= i < state.systems@.len() ==> (#[trigger] app.price_hi@[i])@ == Seq::new(6, |k: int| blank)
}

/// The prompt for a purchase quantity: the good, the system's stock (none
/// when it lacks the good) and, for goods with weight, the tons left.
pub open spec fn buy_prompt_text(state: &GameState) -> Seq<char> {
    let g = state.selected_good as int;
    let stock = if state.selected_system < state.systems@.len() {
        let s = state.systems@[state.selected_system as int].stock@[g];
        if s > 0 { s as int } else { 0 }
    } else {
        0
    };
    let ton_left = if state.selected_ship < state.ships@.len() {
        let d = state.max_tonnage - state.ships@[state.selected_ship as int].net_tonnage;
        if d > i32::MAX { i32::MAX as int } else if d < i32::MIN { i32::MIN as int } else { d }
    } else {
        state.max_tonnage as int
    };
    if g < HEAVY_GOODS {
        "Buy qty ("@ + Merchandise::code_at(g) + ", stock "@ + decimal(stock) + ", ton left "@ + decimal(ton_left) + ")"@
    } else {
        "Buy qty ("@ + Merchandise::code_at(g) + ", stock "@ + decimal(stock) + ")"@
    }
}

/// The prompt for a sale quantity: the good and the cargo aboard.
pub open spec fn sell_prompt_text(state: &GameState) -> Seq<char> {
    let g = state.selected_good as int;
    let cargo = if state.selected_ship < state.ships@.len() {
        state.ships@[state.selected_ship as int].cargo@[g] as int
    } else {
        0
    };
    "Sell qty ("@ + Merchandise::code_at(g) + ", cargo "@ + decimal(cargo) + ")"@
}

/// Cash aboard the selected ship, or 0 without one.
pub open spec fn selected_cash(state: &GameState) -> int {
    if state.selected_ship < state.ships@.len() {
        state.ships@[state.selected_ship as int].cash as int
    } else {
        0
    }
}

/// The prompt for a deposit: the selected ship's cash and the bank balance.
pub open spec fn deposit_prompt_text(state: &GameState) -> Seq<char> {
    "Deposit amount (ship $"@ + decimal(selected_cash(state)) + ", bank $"@ + decimal(state.bank_balance as int) + ")"@
}

/// The prompt for a withdrawal: the bank balance and the selected ship's cash.
pub open spec fn withdraw_prompt_text(state: &GameState) -> Seq<char> {
    "Withdraw amount (bank $"@ + decimal(state.bank_balance as int) + ", ship $"@ + decimal(selected_cash(state)) + ")"@
}

/// The prompt for a system number: the range of numbers, or that there
/// are no systems.
pub open spec fn destination_prompt_text(state: &GameState) -> Seq<char> {
    if state.systems@.len() == 0 {
        "No systems available"@
    } else {
        "Destination system # (1-"@ + decimal(state.systems@.len() as int) + ")"@
    }
}

impl App {
    /// A new program state for `state` with bindings `keybinds`, on the
    /// launch screen with its banner, no input, an empty log and blank
    /// highlights.
    pub fn new(state: GameState, keybinds: KeyBindings) -> (r: App)
        ensures
            r.state == state,
            r.keybinds == keybinds,
            !r.quit,
            r.ticks == 0,
            r.status@ == "Launching Star Trader..."@,
            r.input_mode is None,
            r.input_buffer@ == Seq::<char>::empty(),
            r.pending_trade is None,
            r.overlay is None,
            r.prev_state is None,
            r.events@.len() == 0,
            r.bank_hi == (Highlight { until: 0, delta: 0 }),
            blank_tables(&r, &state),
            r.screen == Screen::Launch,
            r.menu_index == 0,
            r.active_panel == ActivePanel::Systems,
    {
        let ships = state.ships.len();
        let systems = state.systems.len();
        App {
            state,
            quit: false,
            ticks: 0,
            status: text("Launching Star Trader..."),
            input_mode: None,
            input_buffer: String::new(),
            pending_trade: None,
            overlay: None,
            prev_state: None,
            events: Vec::new(),
            bank_hi: Highlight::none(),
            ship_cash_hi: blank_highlights(ships),
            ship_ton_hi: blank_highlights(ships),
            cargo_hi: blank_rows(ships, 6),
            stock_hi: blank_rows(systems, 6),
            price_hi: blank_rows(systems, 6),
            screen: Screen::Launch,
            menu_index: 0,
            active_panel: ActivePanel::Systems,
            keybinds,
        }
    }

    /// Starts over with the game `state`: tick count, modals, log and
    /// highlights reset, the status set to `status_msg`, `event_msg` logged,
    /// the systems panel focused, on the game screen.
    pub fn apply_demo_state(&mut self, state: GameState, status_msg: &str, event_msg: &str)
        ensures
            final(self).state == state,
            final(self).ticks == 0,
            final(self).input_mode is None,
            final(self).input_buffer@ == Seq::<char>::empty(),
            final(self).pending_trade is None,
            final(self).overlay is None,
            final(self).status@ == status_msg@,
            final(self).events@.len() == 1 && final(self).events@[0]@ == event_msg@,
            blank_tables(final(self), &state),
            final(self).bank_hi == (Highlight { until: 0, delta: 0 }),
            final(self).prev_state is None,
            final(self).active_panel == ActivePanel::Systems,
            final(self).screen == Screen::Game,
            final(self).quit == old(self).quit,
            final(self).menu_index == old(self).menu_index,
            final(self).keybinds == old(self).keybinds,
    {
        let ships = state.ships.len();
        let systems = state.systems.len();
        self.state = state;
        self.ticks = 0;
        self.clear_modals();
        self.status = text(status_msg);
        self.events = Vec::new();
        self.log_event(text(event_msg));
        self.ship_cash_hi = blank_highlights(ships);
        self.ship_ton_hi = blank_highlights(ships);
        self.cargo_hi = blank_rows(ships, 6);
        self.stock_hi = blank_rows(systems, 6);
        self.price_hi = blank_rows(systems, 6);
        self.bank_hi = Highlight::none();
        self.prev_state = None;
        self.active_panel = ActivePanel::Systems;
        self.screen = Screen::Game;
    }

    /// Starts a new game with the fresh game `state`, announcing it (see
    /// `apply_demo_state`).
    pub fn start_new_game(&mut self, state: GameState)
        ensures
            final(self).state == state,
            final(self).status@ == "New game started. Press ? for help; v save, o load."@,
            final(self).events@.len() == 1 && final(self).events@[0]@ == "New game started"@,
            final(self).screen == Screen::Game,
            final(self).ticks == 0,
            final(self).input_mode is None,
            final(self).overlay is None,
            final(self).pending_trade is None,
            final(self).prev_state is None,
            final(self).bank_hi == (Highlight { until: 0, delta: 0 }),
            final(self).active_panel == ActivePanel::Systems,
            final(self).input_buffer@ == Seq::<char>::empty(),
            blank_tables(final(self), &state),
            final(self).menu_index == old(self).menu_index,
            final(self).keybinds == old(self).keybinds,
            final(self).quit == old(self).quit,
    {
        self.apply_demo_state(state, "New game started. Press ? for help; v save, o load.", "New game started");
    }

    /// Resets to the fresh game `state`, announcing the reset (see
    /// `apply_demo_state`).
    pub fn reset_demo_state(&mut self, state: GameState)
        ensures
            final(self).state == state,
            final(self).status@ == "Demo state reset."@,
            final(self).events@.len() == 1 && final(self).events@[0]@ == "Reset demo state"@,
            final(self).screen == Screen::Game,
            final(self).ticks == 0,
            final(self).input_mode is None,
            final(self).overlay is None,
            final(self).pending_trade is None,
            final(self).prev_state is None,
            final(self).bank_hi == (Highlight { until: 0, delta: 0 }),
            final(self).active_panel == ActivePanel::Systems,
            final(self).input_buffer@ == Seq::<char>::empty(),
            blank_tables(final(self), &state),
            final(self).menu_index == old(self).menu_index,
            final(self).keybinds == old(self).keybinds,
            final(self).quit == old(self).quit,
    {
        self.apply_demo_state(state, "Demo state reset.", "Reset demo state");
    }

    /// Shows `msg` as the status and records it in the log.
    pub fn report(&mut self, msg: String)
        ensures
            final(self).status == msg,
            final(self).events@ == logged(old(self).events@, msg),
            *final(self) == (App { status: final(self).status, events: final(self).events, ..*old(self) }),
    {
        self.status = msg.clone();
        self.log_event(msg);
    }

    /// Takes note of what loading the key bindings said: a failure or a
    /// fallback to the defaults becomes the status; the note is logged.
    pub fn announce_keybindings(&mut self, msg: String)
        ensures
            final(self).status == (if has_infix(msg@, "failed"@) || has_infix(msg@, "fallback"@) {
                msg
            } else {
                old(self).status
            }),
            final(self).events@ == logged(old(self).events@, msg),
            *final(self) == (App { status: final(self).status, events: final(self).events, ..*old(self) }),
    {
        if contains_text(msg.as_str(), "failed") || contains_text(msg.as_str(), "fallback") {
            self.status = msg.clone();
        }
        self.log_event(msg);
    }

    /// Switches to the game `loaded` (a saved game): it gets the bindings
    /// `keybinds`, the game screen, the first menu entry and no modals; its
    /// status says where it was loaded from, unless the bindings note reports
    /// a failure or fallback; the note, then the status, are logged.
    pub fn finish_load(&mut self, loaded: App, keybinds: KeyBindings, keybinds_note: Option<String>)
        ensures
            final(self).state == loaded.state,
            final(self).keybinds == keybinds,
            final(self).screen == Screen::Game,
            final(self).menu_index == 0,
            final(self).input_mode is None,
            final(self).input_buffer@ == Seq::<char>::empty(),
            final(self).pending_trade is None,
            final(self).overlay is None,
            final(self).ticks == loaded.ticks,
            final(self).quit == loaded.quit,
            final(self).active_panel == loaded.active_panel,
            final(self).status@ == (match keybinds_note {
                Some(m) => if has_infix(m@, "failed"@) || has_infix(m@, "fallback"@) {
                    m@
                } else {
                    "Loaded from savegame.json"@
                },
                None => "Loaded from savegame.json"@,
            }),
            final(self).events@ == (match keybinds_note {
                Some(m) => logged(logged(loaded.events@, m), final(self).status),
                None => logged(loaded.events@, final(self).status),
            }),
    {
        let mut app = loaded;
        app.keybinds = keybinds;
        app.screen = Screen::Game;
        app.menu_index = 0;
        app.clear_modals();
        app.status = text("Loaded from savegame.json");
        match keybinds_note {
            Some(msg) => {
                app.log_event(msg.clone());
                if contains_text(msg.as_str(), "failed") || contains_text(msg.as_str(), "fallback") {
                    app.status = msg;
                }
            },
            None => {},
        }
        let status = app.status.clone();
        app.log_event(status);
        *self = app;
    }

    /// Leaves the instructions or about screen: Esc, Backspace or Enter
    /// return to the menu, `q` quits; other keys do nothing.
    pub fn handle_static_screen_key(&mut self, key: Key) -> (r: bool)
        ensures
            r == (key == Key::Esc || key == Key::Backspace || key == Key::Enter || key == Key::Char('q')),
            static_step(*old(self), *final(self), key),    {
        match key {
            Key::Esc | Key::Backspace | Key::Enter => {
                self.enter_menu();
                true
            },
            Key::Char('q') => {
                self.request_quit();
                true
            },
            _ => false,
        }
    }

    /// Carries out a menu entry: a new game or loading are left to the
    /// program (`MenuNewGame`, `MenuLoad`); the instructions and about
    /// screens open; quitting quits.
    pub fn activate_menu_item(&mut self, item: MenuItem) -> (r: Effect)
        ensures
            item == MenuItem::NewGame ==> r == Effect::MenuNewGame && *final(self) == *old(self),
            item == MenuItem::LoadGame ==> r == Effect::MenuLoad && *final(self) == *old(self),
            item == MenuItem::Quit ==> r == Effect::Nothing && *final(self) == (App { quit: true, ..*old(self) }),
            item == MenuItem::Instructions ==> r == Effect::Nothing
                && final(self).status@ == "Instructions - Esc/Enter to return."@
                && final(self).input_buffer@ == Seq::<char>::empty()
                && *final(self) == (App {
                    input_mode: None,
                    input_buffer: final(self).input_buffer,
                    pending_trade: None,
                    overlay: None,
                    screen: Screen::Instructions,
                    status: final(self).status,
                    ..*old(self)
                }),
            item == MenuItem::About ==> r == Effect::Nothing
                && final(self).status@ == "About - Esc/Enter to return."@
                && final(self).input_buffer@ == Seq::<char>::empty()
                && *final(self) == (App {
                    input_mode: None,
                    input_buffer: final(self).input_buffer,
                    pending_trade: None,
                    overlay: None,
                    screen: Screen::About,
                    status: final(self).status,
                    ..*old(self)
                }),
            final(self).keybinds == old(self).keybinds,
    {
        match item {
            MenuItem::NewGame => Effect::MenuNewGame,
            MenuItem::LoadGame => Effect::MenuLoad,
            MenuItem::Instructions => {
                self.clear_modals();
                self.screen = Screen::Instructions;
                self.status = text("Instructions - Esc/Enter to return.");
                Effect::Nothing
            },
            MenuItem::About => {
                self.clear_modals();
                self.screen = Screen::About;
                self.status = text("About - Esc/Enter to return.");
                Effect::Nothing
            },
            MenuItem::Quit => {
                self.request_quit();
                Effect::Nothing
            },
        }
    }

    /// A key on the main menu: Up and Down move the choice round the five
    /// entries, Enter activates it, Esc or `q` quit. Afterwards the status
    /// names the chosen entry, except after choosing a new game or loading,
    /// which the program completes before announcing the entry.
    pub fn handle_menu_key(&mut self, key: Key) -> (r: Effect)
        requires
            old(self).menu_index < usize::MAX,
        ensures
            menu_step(*old(self), *final(self), key, r),    {
        let len = MENU_LEN;
        let mut effect = Effect::Nothing;
        match key {
            Key::Up => {
                let up = if self.menu_index > usize::MAX - (len - 1) { usize::MAX } else { self.menu_index + (len - 1) };
                self.menu_index = up % len;
            },
            Key::Down => {
                self.menu_index = (self.menu_index + 1) % len;
            },
            Key::Enter => {
                match MenuItem::at(self.menu_index) {
                    Some(item) => {
                        effect = self.activate_menu_item(item);
                    },
                    None => {},
                }
            },
            Key::Esc | Key::Char('q') => {
                self.request_quit();
            },
            _ => {},
        }
        if effect != Effect::MenuNewGame && effect != Effect::MenuLoad {
            self.announce_menu_item();
        }
        effect
    }

    /// Opens an overlay, with `status` as status line and log entry.
    pub fn open_overlay(&mut self, overlay: Overlay, status: &str)
        ensures
            final(self).overlay == Some(overlay),
            final(self).status@ == status@,
            final(self).events@.len() == logged(old(self).events@, final(self).status).len(),
            final(self).events@ == logged(old(self).events@, final(self).status),
            *final(self) == (App { overlay: Some(overlay), status: final(self).status, events: final(self).events, ..*old(self) }),
    {
        self.overlay = Some(overlay);
        self.status = text(status);
        let logged_status = self.status.clone();
        self.log_event(logged_status);
    }

    /// Closes the overlay if it is the one shown, else opens it.
    pub fn toggle_overlay(&mut self, overlay: Overlay, status: &str)
        ensures
            old(self).overlay == Some(overlay) ==> final(self).status@ == "Closed overlay"@
                && *final(self) == (App { overlay: None, status: final(self).status, ..*old(self) }),
            old(self).overlay != Some(overlay) ==> final(self).overlay == Some(overlay) && final(self).status@ == status@
                && *final(self) == (App { overlay: Some(overlay), status: final(self).status, events: final(self).events, ..*old(self) })
                && final(self).events@ == logged(old(self).events@, final(self).status),
    {
        if self.overlay == Some(overlay) {
            self.overlay = None;
            self.status = text("Closed overlay");
        } else {
            self.open_overlay(overlay, status);
        }
    }

    /// Opens the input bar in `mode` with an empty buffer and `prompt` as status.
    pub fn begin_input(&mut self, mode: InputMode, prompt: String)
        ensures
            final(self).input_buffer@ == Seq::<char>::empty(),
            *final(self) == (App { input_mode: Some(mode), input_buffer: final(self).input_buffer, status: prompt, ..*old(self) }),
    {
        self.input_mode = Some(mode);
        self.input_buffer = String::new();
        self.status = prompt;
    }

    pub fn buy_qty_prompt(&self) -> (r: String)
        requires
            self.state.wf(),
        ensures
            r@ == buy_prompt_text(&self.state),
    {
        let g = self.state.selected_good;
        let good = Merchandise::from_idx(g).code();
        let stock: i32 = if self.state.selected_system < self.state.systems.len() {
            let s = self.state.systems[self.state.selected_system].stock[g];
            if s > 0 { s } else { 0 }
        } else {
            0
        };
        let ton_left: i32 = if self.state.selected_ship < self.state.ships.len() {
            let d: i64 = self.state.max_tonnage as i64 - self.state.ships[self.state.selected_ship].net_tonnage as i64;
            if d > i32::MAX as i64 { i32::MAX } else if d < i32::MIN as i64 { i32::MIN } else { d as i32 }
        } else {
            self.state.max_tonnage
        };
        let mut s = text("Buy qty (");
        s.append(good);
        s.append(", stock ");
        push_decimal(&mut s, stock as i64);
        if g < HEAVY_GOODS {
            s.append(", ton left ");
            push_decimal(&mut s, ton_left as i64);
        }
        s.append(")");
        s
    }

    pub fn sell_qty_prompt(&self) -> (r: String)
        requires
            self.state.wf(),
        ensures
            r@ == sell_prompt_text(&self.state),
    {
        let g = self.state.selected_good;
        let good = Merchandise::from_idx(g).code();
        let cargo: i32 = if self.state.selected_ship < self.state.ships.len() {
            self.state.ships[self.state.selected_ship].cargo[g]
        } else {
            0
        };
        let mut s = text("Sell qty (");
        s.append(good);
        s.append(", cargo ");
        push_decimal(&mut s, cargo as i64);
        s.append(")");
        s
    }

    fn selected_ship_cash(&self) -> (r: i64)
        ensures
            r == selected_cash(&self.state),
    {
        if self.state.selected_ship < self.state.ships.len() {
            self.state.ships[self.state.selected_ship].cash
        } else {
            0
        }
    }

    pub fn deposit_prompt(&self) -> (r: String)
        ensures
            r@ == deposit_prompt_text(&self.state),
    {
        let cash = self.selected_ship_cash();
        let mut s = text("Deposit amount (ship $");
        push_decimal(&mut s, cash);
        s.append(", bank $");
        push_decimal(&mut s, self.state.bank_balance);
        s.append(")");
        s
    }

    pub fn withdraw_prompt(&self) -> (r: String)
        ensures
            r@ == withdraw_prompt_text(&self.state),
    {
        let cash = self.selected_ship_cash();
        let mut s = text("Withdraw amount (bank $");
        push_decimal(&mut s, self.state.bank_balance);
        s.append(", ship $");
        push_decimal(&mut s, cash);
        s.append(")");
        s
    }

    pub fn destination_prompt(&self) -> (r: String)
        ensures
            r@ == destination_prompt_text(&self.state),
    {
        let total = self.state.systems.len();
        if total == 0 {
            text("No systems available")
        } else {
            let mut s = text("Destination system # (1-");
            push_count(&mut s, total);
            s.append(")");
            s
        }
    }
}

/// A selection after stepping `delta` places through `len` entries,
/// wrapping around; unchanged when there are none.
pub open spec fn stepped(current: usize, delta: i8, len: int) -> int {
    if len == 0 {
        current as int
    } else {
        crate::world::cycled(current, delta, len)
    }
}

/// The session that a trade request opens when nothing refuses it.
pub open spec fn opened_session(state: &GameState, kind: TradeKind, qty: i32) -> TradeSession {
    TradeSession {
        kind,
        ship_id: state.selected_ship,
        system_id: state.selected_system,
        good_idx: state.selected_good,
        qty,
        opening_price: state.systems@[state.selected_system as int].prices@[state.selected_good as int],
        round: 1,
        max_rounds: state.max_bid_rounds,
    }
}

/// The system that a "jump to system" entry names: entries count from 1.
pub open spec fn jump_target(entry: i32) -> int {
    entry - 1
}

/// An entry names a system: it lies in 1 to the number of systems.
pub open spec fn jump_valid(entry: i32, count: int) -> bool {
    1 <= entry && entry - 1 < count
}

/// What completing an entry of the input bar in `mode`, with `parsed` the
/// number typed (if any), does to the program `a`, giving `b` and the
/// effect `r`.
pub open spec fn input_applied(a: App, b: App, mode: InputMode, parsed: Option<i32>, r: Effect) -> bool {
    &&& ((mode == InputMode::Buy || mode == InputMode::Sell) ==> {
        let kind = if mode == InputMode::Buy { TradeKind::BuyFromSystem } else { TradeKind::SellToSystem };
        let st = &a.state;
        let prompt = if mode == InputMode::Buy { buy_prompt_text(st) } else { sell_prompt_text(st) };
        match parsed {
            None => {
                &&& r == Effect::Nothing
                &&& b == (App { status: b.status, input_mode: Some(mode), ..a })
                &&& b.status@ == "Enter a quantity. "@ + prompt
            },
            Some(q) => match st.session_refusal(kind, st.selected_ship as int, st.selected_system as int, st.selected_good as int, q as int) {
                None => {
                    &&& r == Effect::OpenHaggle(opened_session(st, kind, q))
                    &&& b == (App {
                        pending_trade: Some(context_of(opened_session(st, kind, q))),
                        input_mode: Some(InputMode::TradePrice),
                        ..a
                    })
                },
                Some(e) => {
                    &&& r == Effect::Nothing
                    &&& b == (App { status: b.status, events: b.events, input_mode: Some(mode), ..a })
                    &&& b.status@ == e + ". "@ + prompt
                    &&& b.events@ == logged(a.events@, b.events@.last())
                    &&& b.events@.last()@ == e
                },
            },
        }
    })
    &&& (mode == InputMode::Deposit ==> match parsed {
        Some(amt) => r == Effect::Deposit(amt as i64) && b == a,
        None => r == Effect::Nothing && b == (App { status: b.status, input_mode: Some(InputMode::Deposit), ..a })
            && b.status@ == deposit_prompt_text(&a.state),
    })
    &&& (mode == InputMode::Withdraw ==> match parsed {
        Some(amt) => r == Effect::Withdraw(amt as i64) && b == a,
        None => r == Effect::Nothing && b == (App { status: b.status, input_mode: Some(InputMode::Withdraw), ..a })
            && b.status@ == withdraw_prompt_text(&a.state),
    })
    &&& (mode == InputMode::SetDestination ==> match parsed {
        Some(e) => if jump_valid(e, a.state.systems@.len() as int) {
            &&& r == Effect::SetCourse
            &&& b == (App { state: GameState { selected_system: jump_target(e) as usize, ..a.state }, ..a })
        } else {
            &&& r == Effect::Nothing
            &&& b == (App { status: b.status, input_mode: Some(InputMode::SetDestination), ..a })
            &&& b.status@ == "No such system. "@ + destination_prompt_text(&a.state)
        },
        None => r == Effect::Nothing && b == (App { status: b.status, input_mode: Some(InputMode::SetDestination), ..a })
            && b.status@ == destination_prompt_text(&a.state),
    })
    &&& (mode == InputMode::PickDestination ==> r == Effect::SetCourse && b == a)
    &&& (mode == InputMode::TradePrice ==> match parsed {
        None => r == Effect::Nothing && b == (App { status: b.status, input_mode: Some(InputMode::TradePrice), ..a })
            && b.status@ == "Enter a price"@,
        Some(t) => match a.pending_trade {
            None => r == Effect::Nothing && b == (App { status: b.status, ..a }) && b.status@ == "No pending trade"@,
            Some(ctx) => r == Effect::Haggle(ctx.session, t) && b == (App { pending_trade: None, ..a }),
        },
    })
}

impl App {
    /// Carries out a completed entry of the input bar (`parsed` is the
    /// number typed, if it reads as one).
    pub fn apply_input(&mut self, mode: InputMode, parsed: Option<i32>) -> (r: Effect)
        requires
            old(self).wf(),
        ensures
            final(self).state.ships == old(self).state.ships,
            final(self).state.systems == old(self).state.systems,
            final(self).state.date == old(self).state.date,
            final(self).state.bank_balance == old(self).state.bank_balance,
            final(self).state.bank_last_date == old(self).state.bank_last_date,
            final(self).state.wf(),
            final(self).keybinds == old(self).keybinds,
            final(self).screen == old(self).screen,
            final(self).input_buffer == old(self).input_buffer,
            final(self).wf(),
            input_applied(*old(self), *final(self), mode, parsed, r),
    {
        match mode {
            InputMode::Buy | InputMode::Sell => {
                let kind = if mode == InputMode::Buy { TradeKind::BuyFromSystem } else { TradeKind::SellToSystem };
                match parsed {
                    Some(qty) => {
                        proof {
                            let st = &self.state;
                            if st.trade_reaches_good(st.selected_ship as int, st.selected_system as int, qty as int) {
                                let sh = st.ships@[st.selected_ship as int];
                                let sy = st.systems@[st.selected_system as int];
                                assert(figure_ok(sh.net_tonnage as int));
                                assert(figure_ok(sy.stock@[st.selected_good as int] as int));
                            }
                        }
                        match self.state.start_trade_session(
                            kind,
                            self.state.selected_ship,
                            self.state.selected_system,
                            self.state.selected_good,
                            qty,
                        ) {
                            Ok(sess) => {
                                self.pending_trade = Some(TradeContext::from_session(sess));
                                self.input_mode = Some(InputMode::TradePrice);
                                Effect::OpenHaggle(sess)
                            },
                            Err(e) => {
                                let prompt = if mode == InputMode::Buy { self.buy_qty_prompt() } else { self.sell_qty_prompt() };
                                let mut st = e.clone();
                                st.append(". ");
                                st.append(prompt.as_str());
                                self.status = st;
                                self.input_mode = Some(mode);
                                self.log_event(e);
                                Effect::Nothing
                            },
                        }
                    },
                    None => {
                        let prompt = if mode == InputMode::Buy { self.buy_qty_prompt() } else { self.sell_qty_prompt() };
                        let mut st = text("Enter a quantity. ");
                        st.append(prompt.as_str());
                        self.status = st;
                        self.input_mode = Some(mode);
                        Effect::Nothing
                    },
                }
            },
            InputMode::Deposit => match parsed {
                Some(amount) => Effect::Deposit(amount as i64),
                None => {
                    self.status = self.deposit_prompt();
                    self.input_mode = Some(InputMode::Deposit);
                    Effect::Nothing
                },
            },
            InputMode::Withdraw => match parsed {
                Some(amount) => Effect::Withdraw(amount as i64),
                None => {
                    self.status = self.withdraw_prompt();
                    self.input_mode = Some(InputMode::Withdraw);
                    Effect::Nothing
                },
            },
            InputMode::SetDestination => match parsed {
                Some(entry) => {
                    if entry >= 1 && ((entry - 1) as usize) < self.state.systems.len() {
                        self.state.selected_system = (entry - 1) as usize;
                        Effect::SetCourse
                    } else {
                        let mut st = text("No such system. ");
                        let prompt = self.destination_prompt();
                        st.append(prompt.as_str());
                        self.status = st;
                        self.input_mode = Some(InputMode::SetDestination);
                        Effect::Nothing
                    }
                },
                None => {
                    self.status = self.destination_prompt();
                    self.input_mode = Some(InputMode::SetDestination);
                    Effect::Nothing
                },
            },
            InputMode::PickDestination => Effect::SetCourse,
            InputMode::TradePrice => match parsed {
                None => {
                    self.status = text("Enter a price");
                    self.input_mode = Some(InputMode::TradePrice);
                    Effect::Nothing
                },
                Some(total) => {
                    let pending = self.pending_trade;
                    self.pending_trade = None;
                    match pending {
                        None => {
                            self.status = text("No pending trade");
                            Effect::Nothing
                        },
                        Some(ctx) => Effect::Haggle(ctx.session, total),
                    }
                },
            },
        }
    }

    /// A key while the input bar is open: Esc cancels; with a destination
    /// being picked, arrows move through the systems; Backspace deletes;
    /// digits are typed; Enter closes the bar and carries out the entry
    /// (`apply_input`, with the typed text read as a number).
    pub fn handle_input_mode(&mut self, key: Key) -> (r: Effect)
        requires
            old(self).wf(),
        ensures
            final(self).wf(),
            final(self).state.ships == old(self).state.ships,
            final(self).state.systems == old(self).state.systems,
            final(self).state.date == old(self).state.date,
            final(self).state.bank_balance == old(self).state.bank_balance,
            final(self).state.bank_last_date == old(self).state.bank_last_date,
            final(self).state.wf(),
            final(self).keybinds == old(self).keybinds,
            input_step(*old(self), *final(self), key, r),    {
        match key {
            Key::Esc => {
                self.input_mode = None;
                self.input_buffer = String::new();
                self.status = text("Canceled.");
                self.pending_trade = None;
                Effect::Nothing
            },
            Key::Up | Key::Down | Key::Left | Key::Right => {
                if self.input_mode == Some(InputMode::PickDestination) {
                    let delta: i8 = match key {
                        Key::Up => -1,
                        Key::Down => 1,
                        Key::Left => -1,
                        _ => 1,
                    };
                    self.state.cycle_system(delta);
                }
                Effect::Nothing
            },
            Key::Backspace => {
                let n = self.input_buffer.as_str().unicode_len();
                if n > 0 {
                    let kept = text(self.input_buffer.as_str().substring_char(0, n - 1));
                    proof {
                        assert(kept@ =~= old(self).input_buffer@.drop_last());
                    }
                    self.input_buffer = kept;
                }
                Effect::Nothing
            },
            Key::Char(c) => {
                if '0' <= c && c <= '9' {
                    push_char(&mut self.input_buffer, c);
                }
                Effect::Nothing
            },
            Key::Enter => {
                let parsed = parse_i32(self.input_buffer.as_str());
                let mode = self.input_mode;
                self.input_mode = None;
                self.input_buffer = String::new();
                match mode {
                    Some(m) => {
                        let ghost mid = *self;
                        let r = self.apply_input(m, parsed);
                        assert(input_applied(mid, *self, m, parsed_i32(old(self).input_buffer@), r));
                        r
                    },
                    None => Effect::Nothing,
                }
            },
            _ => Effect::Nothing,
        }
    }
}

impl App {
    /// Completes "set course" with the voyage `travel` the program planned:
    /// the route report becomes the status and is logged.
    pub fn set_course(&mut self, travel: Travel)
        requires
            old(self).wf(),
            travel.valid(),
        ensures
            final(self).wf(),
            GameState::course_set(&old(self).state, &final(self).state, final(self).status@, travel),
            final(self).events@ == logged(old(self).events@, final(self).status),
            *final(self) == (App { state: final(self).state, status: final(self).status, events: final(self).events, ..*old(self) }),
            final(self).state.wf(),
    {
        let msg = self.state.route_selected_ship_to_selected_system(travel);
        proof {
            assert forall|i: int| #![trigger self.state.ships@[i]] 0 <= i < self.state.ships@.len() implies
                self.state.ships@[i].location < self.state.systems@.len()
                && self.state.ships@[i].destination < self.state.systems@.len() by {
                assert(old(self).state.ships@[i].location < old(self).state.systems@.len());
            }
        }
        self.report(msg);
    }

    /// Completes "next arrival": advances the game (see
    /// `GameState::advance_to_next_arrival`) and reports what happened, or
    /// that no arrivals are scheduled.
    pub fn next_arrival<F: Fn(&StarSystem, GameDate) -> MarketUpdate>(
        &mut self,
        frontier_coords: (i16, i16),
        reprice: &F,
        interest: i64,
    )
        requires
            old(self).wf(),
            forall|s: &StarSystem, d: GameDate| #[trigger] reprice.requires((s, d)),
            credits_ok(interest as int),
        ensures
            !has_voyages(old(self).state.ships@) ==> final(self).status@ == "No scheduled arrivals."@
                && final(self).state == old(self).state && final(self).events == old(self).events,
            has_voyages(old(self).state.ships@) ==> final(self).status == final(self).events@.last()
                && crate::arrivals::arrival_outcome(
                &old(self).state,
                &final(self).state,
                Some(final(self).status),
                frontier_coords,
                reprice,
                interest as int,
            ),
            has_voyages(old(self).state.ships@) ==> final(self).events@ == logged(old(self).events@, final(self).status),
            *final(self) == (App { state: final(self).state, status: final(self).status, events: final(self).events, ..*old(self) }),
            final(self).state.wf(),
            final(self).screen == old(self).screen,
            final(self).keybinds == old(self).keybinds,
    {
        match self.state.advance_to_next_arrival(frontier_coords, reprice, interest) {
            Some(msg) => {
                self.report(msg);
            },
            None => {
                self.status = text("No scheduled arrivals.");
            },
        }
    }

    /// Completes a deposit of `amount` with `interest` the interest due:
    /// the bank's report becomes the status and is logged; after a refusal
    /// the deposit prompt stays open.
    pub fn finish_deposit(&mut self, amount: i64, interest: i64)
        requires
            old(self).wf(),
            -2147483648 <= amount <= 2147483647,
            credits_ok(interest as int),
        ensures
            final(self).state.wf(),
            final(self).status == final(self).events@.last(),
            final(self).events@ == logged(old(self).events@, final(self).status),
            *final(self) == (App {
                state: final(self).state,
                status: final(self).status,
                events: final(self).events,
                input_mode: final(self).input_mode,
                ..*old(self)
            }),
            final(self).input_mode == (if old(self).state.deposit_refusal(old(self).state.selected_ship as int, amount as int) is None {
                old(self).input_mode
            } else {
                Some(InputMode::Deposit)
            }),
            old(self).state.deposit_refusal(old(self).state.selected_ship as int, amount as int) matches Some(e) ==> {
                &&& final(self).status@ == e
                &&& final(self).state == old(self).state
            },
            old(self).state.deposit_refusal(old(self).state.selected_ship as int, amount as int) is None ==> {
                &&& final(self).status@ == "Deposited $"@ + decimal(amount as int)
                &&& GameState::banked(
                    &old(self).state,
                    &final(self).state,
                    old(self).state.selected_ship as int,
                    old(self).state.balance_after_interest(interest as int) + amount,
                    -amount,
                )
            },
    {
        let ship = self.state.selected_ship;
        proof {
            if ship < self.state.ships@.len() {
                assert(credits_ok(self.state.ships@[ship as int].cash as int));
            }
        }
        match self.state.deposit(ship, amount, interest) {
            Ok(msg) => {
                self.report(msg);
            },
            Err(e) => {
                self.report(e);
                self.input_mode = Some(InputMode::Deposit);
            },
        }
    }

    /// Completes a withdrawal of `amount` with `interest` the interest due:
    /// the bank's report becomes the status and is logged; after a refusal
    /// the withdrawal prompt stays open.
    pub fn finish_withdraw(&mut self, amount: i64, interest: i64)
        requires
            old(self).wf(),
            -2147483648 <= amount <= 2147483647,
            credits_ok(interest as int),
        ensures
            final(self).state.wf(),
            final(self).status == final(self).events@.last(),
            final(self).events@ == logged(old(self).events@, final(self).status),
            *final(self) == (App {
                state: final(self).state,
                status: final(self).status,
                events: final(self).events,
                input_mode: final(self).input_mode,
                ..*old(self)
            }),
            old(self).state.withdraw_precheck(old(self).state.selected_ship as int, amount as int) matches Some(e) ==> {
                &&& final(self).status@ == e
                &&& final(self).state == old(self).state
                &&& final(self).input_mode == Some(InputMode::Withdraw)
            },
            old(self).state.withdraw_precheck(old(self).state.selected_ship as int, amount as int) is None ==> {
                let after = old(self).state.balance_after_interest(interest as int);
                if after >= amount {
                    &&& final(self).status@ == "Withdrew $"@ + decimal(amount as int)
                    &&& final(self).input_mode == old(self).input_mode
                    &&& GameState::banked(&old(self).state, &final(self).state, old(self).state.selected_ship as int, after - amount, amount as int)
                } else {
                    &&& final(self).status@ == "Not enough in bank"@
                    &&& final(self).input_mode == Some(InputMode::Withdraw)
                    &&& GameState::banked(&old(self).state, &final(self).state, old(self).state.selected_ship as int, after, 0)
                }
            },
    {
        let ship = self.state.selected_ship;
        proof {
            if ship < self.state.ships@.len() {
                assert(credits_ok(self.state.ships@[ship as int].cash as int));
            }
        }
        match self.state.withdraw(ship, amount, interest) {
            Ok(msg) => {
                self.report(msg);
            },
            Err(e) => {
                self.report(e);
                self.input_mode = Some(InputMode::Withdraw);
            },
        }
    }

    /// Completes a round of haggling: the outcome's message becomes the
    /// status and is logged; a counter-offer keeps the negotiation open with
    /// its new session, awaiting another price.
    pub fn finish_haggle(&mut self, outcome: HaggleOutcome)
        ensures
            final(self).events@ == logged(old(self).events@, final(self).status),
            *final(self) == (App {
                status: final(self).status,
                events: final(self).events,
                pending_trade: final(self).pending_trade,
                input_mode: final(self).input_mode,
                ..*old(self)
            }),
            final(self).status == final(self).events@.last(),
            final(self).state == old(self).state,
            outcome matches HaggleOutcome::Counter(next, msg) ==> final(self).status == msg
                && final(self).pending_trade == Some(context_of(next)) && final(self).input_mode == Some(InputMode::TradePrice),
            outcome matches HaggleOutcome::Accept(msg) ==> final(self).status == msg
                && final(self).pending_trade == old(self).pending_trade && final(self).input_mode == old(self).input_mode,
            outcome matches HaggleOutcome::Reject(msg) ==> final(self).status == msg
                && final(self).pending_trade == old(self).pending_trade && final(self).input_mode == old(self).input_mode,
    {
        match outcome {
            HaggleOutcome::Accept(msg) => {
                self.report(msg);
            },
            HaggleOutcome::Reject(msg) => {
                self.report(msg);
            },
            HaggleOutcome::Counter(next, msg) => {
                self.status = msg.clone();
                self.pending_trade = Some(TradeContext::from_session(next));
                self.input_mode = Some(InputMode::TradePrice);
                self.log_event(msg);
            },
        }
    }

    /// A key while an overlay is shown: Esc closes it; quit and reset keys
    /// act; the map, report and help keys switch overlays; Tab and
    /// Shift+Tab, Up and Down choose ships, Left and Right systems; Enter sets
    /// course; `r` or `R` (unless bound to reset) selects the selected ship's
    /// system. Other keys do nothing.
    pub fn handle_overlay_key(&mut self, key: Key) -> (r: Effect)
        requires
            old(self).wf(),
        ensures
            final(self).wf(),
            final(self).state.ships == old(self).state.ships,
            final(self).state.systems == old(self).state.systems,
            final(self).state.date == old(self).state.date,
            final(self).state.bank_balance == old(self).state.bank_balance,
            final(self).state.bank_last_date == old(self).state.bank_last_date,
            final(self).state.wf(),
            final(self).keybinds == old(self).keybinds,
            overlay_step(*old(self), *final(self), key, r),    {
        let kb = self.keybinds;
        if key == Key::Esc {
            self.overlay = None;
            self.status = text("Closed overlay");
            return Effect::Nothing;
        }
        if key == kb.key(Command::Quit) {
            self.request_quit();
            return Effect::Nothing;
        }
        if key == Key::Char('r') || key == Key::Char('R') {
            match self.state.selected_ship() {
                Some(ship) => {
                    let last = if self.state.systems.len() > 0 { self.state.systems.len() - 1 } else { 0 };
                    let loc = ship.location;
                    self.state.selected_system = if loc < last { loc } else { last };
                },
                None => {},
            }
            return Effect::Nothing;
        }
        if key == kb.key(Command::Reset) {
            return Effect::Reset;
        }
        if key == kb.key(Command::StarMap) {
            self.toggle_overlay(Overlay::StarMap, "Map overlay \u{2014} Esc to close");
            return Effect::Nothing;
        }
        if key == kb.key(Command::Report) {
            self.toggle_overlay(Overlay::Report, "Trade report \u{2014} Esc to close");
            return Effect::Nothing;
        }
        if kb.matches_help(key) {
            self.toggle_overlay(Overlay::Help, "Help \u{2014} Esc to close");
            return Effect::Nothing;
        }
        match key {
            Key::Tab => {
                self.state.cycle_ship(1);
                Effect::Nothing
            },
            Key::BackTab => {
                self.state.cycle_ship(-1);
                Effect::Nothing
            },
            Key::Enter => Effect::SetCourse,
            Key::Up => {
                self.state.cycle_ship(-1);
                Effect::Nothing
            },
            Key::Down => {
                self.state.cycle_ship(1);
                Effect::Nothing
            },
            Key::Left => {
                self.state.cycle_system(-1);
                Effect::Nothing
            },
            Key::Right => {
                self.state.cycle_system(1);
                Effect::Nothing
            },
            _ => Effect::Nothing,
        }
    }

    /// Moves the selection of the active panel by `delta`: systems, goods or ships.
    fn move_in_panel(&mut self, delta: i8)
        requires
            old(self).wf(),
        ensures
            final(self).state.wf(),
            panel_step(*old(self), *final(self), delta),    {
        match self.active_panel {
            ActivePanel::Systems => self.state.cycle_system(delta),
            ActivePanel::Market => self.state.cycle_good(delta),
            ActivePanel::Ships => self.state.cycle_ship(delta),
        }
    }

    /// A key press. On the launch screen any key leads to the menu; the menu
    /// and the instructions and about screens have their own keys (see
    /// `handle_menu_key`, `handle_static_screen_key`); on the game screen an
    /// open input bar or overlay takes the key first (`handle_input_mode`,
    /// `handle_overlay_key`); otherwise arrows move through the active panel
    /// (Up and Left back, Down and Right forward) and other keys trigger the
    /// command bound to them (see `KeyBindings::command_of`). What needs the
    /// program's help is returned as an `Effect`.
    pub fn handle_key(&mut self, key: Key) -> (r: Effect)
        requires
            old(self).wf(),
        ensures
            final(self).wf(),
            final(self).state.ships == old(self).state.ships,
            final(self).state.systems == old(self).state.systems,
            final(self).state.date == old(self).state.date,
            final(self).state.bank_balance == old(self).state.bank_balance,
            final(self).state.bank_last_date == old(self).state.bank_last_date,
            final(self).state.wf(),
            final(self).keybinds == old(self).keybinds,
            key_step(*old(self), *final(self), key, r),    {
        match self.screen {
            Screen::Launch => {
                self.finish_launch();
                return Effect::Nothing;
            },
            Screen::Menu => {
                return self.handle_menu_key(key);
            },
            Screen::Instructions | Screen::About => {
                let _ = self.handle_static_screen_key(key);
                return Effect::Nothing;
            },
            Screen::Game => {},
        }
        if self.input_mode.is_some() {
            return self.handle_input_mode(key);
        }
        if self.overlay.is_some() {
            return self.handle_overlay_key(key);
        }
        match key {
            Key::Up | Key::Left => {
                self.move_in_panel(-1);
                return Effect::Nothing;
            },
            Key::Down | Key::Right => {
                self.move_in_panel(1);
                return Effect::Nothing;
            },
            _ => {},
        }
        let kb = self.keybinds;
        match kb.command_for(key) {
            None => {
                if key == Key::Tab {
                    self.state.cycle_ship(1);
                } else if key == Key::BackTab {
                    self.state.cycle_ship(-1);
                }
                Effect::Nothing
            },
            Some(c) => match c {
                Command::PrevGood => {
                    self.state.cycle_good(-1);
                    Effect::Nothing
                },
                Command::NextGood => {
                    self.state.cycle_good(1);
                    Effect::Nothing
                },
                Command::FocusSystems => {
                    self.active_panel = ActivePanel::Systems;
                    self.status = text("Focused Star Systems");
                    Effect::Nothing
                },
                Command::FocusMarket => {
                    self.active_panel = ActivePanel::Market;
                    self.status = text("Focused Market");
                    Effect::Nothing
                },
                Command::FocusShips => {
                    self.active_panel = ActivePanel::Ships;
                    self.status = text("Focused Ships");
                    Effect::Nothing
                },
                Command::SetCourse => Effect::SetCourse,
                Command::Buy => {
                    let prompt = self.buy_qty_prompt();
                    self.begin_input(InputMode::Buy, prompt);
                    Effect::Nothing
                },
                Command::Sell => {
                    let prompt = self.sell_qty_prompt();
                    self.begin_input(InputMode::Sell, prompt);
                    Effect::Nothing
                },
                Command::Deposit => {
                    let prompt = self.deposit_prompt();
                    self.begin_input(InputMode::Deposit, prompt);
                    Effect::Nothing
                },
                Command::Withdraw => {
                    let prompt = self.withdraw_prompt();
                    self.begin_input(InputMode::Withdraw, prompt);
                    Effect::Nothing
                },
                Command::SetDestination => {
                    let prompt = self.destination_prompt();
                    self.begin_input(InputMode::SetDestination, prompt);
                    Effect::Nothing
                },
                Command::PickDestination => {
                    self.input_mode = Some(InputMode::PickDestination);
                    self.status = text("Pick destination with arrows, Enter to set, Esc to cancel.");
                    Effect::Nothing
                },
                Command::NextArrival => Effect::NextArrival,
                Command::StarMap => {
                    self.open_overlay(Overlay::StarMap, "Map overlay \u{2014} Esc to close");
                    Effect::Nothing
                },
                Command::Report => {
                    self.open_overlay(Overlay::Report, "Trade report \u{2014} Esc to close");
                    Effect::Nothing
                },
                Command::Help | Command::HelpAlt => {
                    self.open_overlay(Overlay::Help, "Help \u{2014} Esc to close");
                    Effect::Nothing
                },
                Command::Save => Effect::Save,
                Command::Load => Effect::Load,
                Command::Reset => Effect::Reset,
                Command::Quit => {
                    self.request_quit();
                    Effect::Nothing
                },
            },
        }
    }
}

/// The empty highlight.
pub open spec fn blank() -> Highlight {
    Highlight { until: 0, delta: 0 }
}

/// A highlight table grown with empty highlights to at least `n` entries.
pub open spec fn grown(v: Seq<Highlight>, n: int) -> Seq<Highlight> {
    if v.len() < n {
        v + Seq::new((n - v.len()) as nat, |i: int| blank())
    } else {
        v
    }
}

/// Highlight `h`, replaced by a fresh one showing `delta` until `until`
/// when the figure `changed`.
pub open spec fn mark(h: Highlight, changed: bool, until: int, delta: int) -> Highlight {
    if changed {
        Highlight { until: until as u64, delta: delta as i64 }
    } else {
        h
    }
}

/// A row of six per-good highlights (grown to six) with the goods whose
/// figure moved from `old` to `cur` marked, when both figures exist.
pub open spec fn marked_row(row: Seq<Highlight>, cur: Seq<i32>, old: Seq<i32>, both: bool, until: int) -> Seq<Highlight> {
    let base = grown(row, 6);
    Seq::new(base.len(), |g: int| mark(base[g], both && g < 6 && cur[g] != old[g], until, cur[g] - old[g]))
}

fn grow_row(row: &mut Vec<Highlight>, n: usize)
    ensures
        final(row)@ == grown(old(row)@, n as int),
{
    let ghost start = row@;
    while row.len() < n
        invariant
            start.len() <= row@.len() || row@.len() <= n,
            row@.len() < n ==> row@ == start + Seq::new((row@.len() - start.len()) as nat, |i: int| blank()),
            row@.len() >= n ==> row@ == grown(start, n as int),
            row@.len() >= start.len(),
            row@.len() <= start.len() ==> row@ == start,
            row@ == start || row@.len() <= n,
        decreases n - row@.len(),
    {
        let ghost before = row@;
        row.push(Highlight::none());
        proof {
            assert(start.len() < n);
            if before == start {
                assert(row@ =~= start + Seq::new((row@.len() - start.len()) as nat, |i: int| blank()));
            } else {
                assert(row@ =~= start + Seq::new((row@.len() - start.len()) as nat, |i: int| blank()));
            }
            if row@.len() >= n {
                assert(row@ =~= grown(start, n as int));
            }
        }
    }
    proof {
        if start.len() >= n {
            assert(row@ == start);
        }
    }
}

fn refresh_row(row: &mut Vec<Highlight>, cur: &[i32; 6], prior: &[i32; 6], both: bool, until: u64)
    requires
        figures_ok(cur@),
        figures_ok(prior@),
    ensures
        final(row)@ == marked_row(old(row)@, cur@, prior@, both, until as int),
{
    grow_row(row, 6);
    let ghost base = row@;
    let mut g: usize = 0;
    while g < 6
        invariant
            g <= 6,
            base == grown(old(row)@, 6),
            row@.len() == base.len(),
            figures_ok(cur@),
            figures_ok(prior@),
            forall|k: int| 0 <= k < base.len() ==> #[trigger] row@[k] == (if k < g {
                mark(base[k], both && k < 6 && cur@[k] != prior@[k], until as int, cur@[k] - prior@[k])
            } else {
                base[k]
            }),
        decreases 6 - g,
    {
        assert(figure_ok(cur@[g as int] as int) && figure_ok(prior@[g as int] as int));
        if both && cur[g] != prior[g] {
            row[g] = Highlight::new(until, (cur[g] - prior[g]) as i64);
        }
        g = g + 1;
    }
    assert(row@ =~= marked_row(old(row)@, cur@, prior@, both, until as int));
}

/// `b` is `a` after a refresh of the change highlights: the game, the
/// screen, the input bar, the bindings and the clock are as they were; the
/// picture of the game to compare with next time is taken; and, when there
/// was a picture from before, each figure that moved since is marked until
/// the highlight period ends (rows grown to fit), the others keep theirs.
pub open spec fn highlights_refreshed(a: App, b: App) -> bool {
    &&& (b.state == a.state)
    &&& (b.status == a.status)
    &&& (b.events == a.events)
    &&& (b.screen == a.screen)
    &&& (b.input_mode == a.input_mode)
    &&& (b.keybinds == a.keybinds)
    &&& (b.ticks == a.ticks)
    &&& (b.prev_state matches Some(p) && p.bank_balance == a.state.bank_balance
        && p.ships@.len() == a.state.ships@.len() && p.systems@.len() == a.state.systems@.len()
        && (forall|i: int| 0 <= i < p.ships@.len() ==> #[trigger] p.ships@[i] == (
            a.state.ships@[i].cash,
            a.state.ships@[i].net_tonnage,
            a.state.ships@[i].cargo,
        ))
        && (forall|j: int| 0 <= j < p.systems@.len() ==> #[trigger] p.systems@[j] == (
            a.state.systems@[j].stock,
            a.state.systems@[j].prices,
        )))
    &&& (a.prev_state is None ==> {
        &&& b.bank_hi == a.bank_hi
        &&& b.ship_cash_hi == a.ship_cash_hi
        &&& b.ship_ton_hi == a.ship_ton_hi
        &&& b.cargo_hi == a.cargo_hi
        &&& b.stock_hi == a.stock_hi
        &&& b.price_hi == a.price_hi
    })
    &&& (a.prev_state matches Some(p) ==> {
        let st = a.state;
        let until = a.ticks + HIGHLIGHT_TICKS;
        let ns = if st.ships@.len() > p.ships@.len() { st.ships@.len() as int } else { p.ships@.len() as int };
        let cash0 = grown(a.ship_cash_hi@, ns);
        let ton0 = grown(a.ship_ton_hi@, ns);
        &&& b.bank_hi == mark(a.bank_hi, st.bank_balance != p.bank_balance, until, st.bank_balance - p.bank_balance)
        &&& b.ship_cash_hi@ == Seq::new(cash0.len(), |i: int| mark(
            cash0[i],
            i < st.ships@.len() && i < p.ships@.len() && st.ships@[i].cash != p.ships@[i].0,
            until,
            st.ships@[i].cash - p.ships@[i].0,
        ))
        &&& b.ship_ton_hi@ == Seq::new(ton0.len(), |i: int| mark(
            ton0[i],
            i < st.ships@.len() && i < p.ships@.len() && st.ships@[i].net_tonnage != p.ships@[i].1,
            until,
            st.ships@[i].net_tonnage - p.ships@[i].1,
        ))
        &&& b.cargo_hi@.len() == (if a.cargo_hi@.len() < st.ships@.len() {
            st.ships@.len() as int
        } else {
            a.cargo_hi@.len() as int
        })
        &&& forall|i: int| 0 <= i < b.cargo_hi@.len() ==> (#[trigger] b.cargo_hi@[i])@ == (
            if i < st.ships@.len() {
                marked_row(
                    if i < a.cargo_hi@.len() { a.cargo_hi@[i]@ } else { Seq::new(6, |k: int| blank()) },
                    st.ships@[i].cargo@,
                    p.ships@[i].2@,
                    i < p.ships@.len(),
                    until,
                )
            } else {
                a.cargo_hi@[i]@
            })
        &&& b.stock_hi@.len() == b.price_hi@.len()
        &&& b.stock_hi@.len() == (if a.stock_hi@.len() < st.systems@.len() {
            st.systems@.len() as int
        } else {
            a.stock_hi@.len() as int
        })
        &&& forall|j: int| 0 <= j < b.stock_hi@.len() ==> (#[trigger] b.stock_hi@[j])@ == (
            if j < st.systems@.len() {
                marked_row(
                    if j < a.stock_hi@.len() { a.stock_hi@[j]@ } else { Seq::new(6, |k: int| blank()) },
                    st.systems@[j].stock@,
                    p.systems@[j].0@,
                    j < p.systems@.len(),
                    until,
                )
            } else {
                a.stock_hi@[j]@
            })
        &&& forall|j: int| 0 <= j < b.price_hi@.len() ==> (#[trigger] b.price_hi@[j])@ == (
            if j < st.systems@.len() {
                marked_row(
                    if j < a.price_hi@.len() { a.price_hi@[j]@ } else { Seq::new(6, |k: int| blank()) },
                    st.systems@[j].prices@,
                    p.systems@[j].1@,
                    j < p.systems@.len(),
                    until,
                )
            } else {
                a.price_hi@[j]@
            })
    })
}

impl App {
    /// Compares the game with its snapshot from the previous frame (if
    /// any): each figure that changed, the bank balance, a ship's cash,
    /// tonnage or cargo, a system's stock or price, gets a highlight of the
    /// change lasting `HIGHLIGHT_TICKS` ticks; the tables grow to cover all
    /// ships and systems. The current figures then become the snapshot.
    pub fn update_highlights(&mut self)
        requires
            old(self).wf(),
        ensures
            final(self).wf(),
            highlights_refreshed(*old(self), *final(self)),
    {
        let taken = self.prev_state.take();
        match taken {
            None => {},
            Some(prev) => {
                let until = self.ticks + HIGHLIGHT_TICKS;
                if self.state.bank_balance != prev.bank_balance {
                    self.bank_hi = Highlight::new(until, self.state.bank_balance - prev.bank_balance);
                }
                let cur_ships = self.state.ships.len();
                let max_ships = if cur_ships > prev.ships.len() { cur_ships } else { prev.ships.len() };
                if self.ship_cash_hi.len() < max_ships {
                    grow_row(&mut self.ship_cash_hi, max_ships);
                    grow_row(&mut self.ship_ton_hi, max_ships);
                }
                let ghost cash0 = self.ship_cash_hi@;
                let ghost ton0 = self.ship_ton_hi@;
                let ghost mid = *self;
                let mut idx: usize = 0;
                while idx < max_ships
                    invariant
                        idx <= max_ships,
                        *self == (App { ship_cash_hi: self.ship_cash_hi, ship_ton_hi: self.ship_ton_hi, ..mid }),
                        max_ships <= cash0.len(),
                        cash0.len() == ton0.len(),
                        self.ship_cash_hi@.len() == cash0.len(),
                        self.ship_ton_hi@.len() == ton0.len(),
                        prev.in_range(),
                        App::figures_in_range(&self.state),
                        until == old(self).ticks + HIGHLIGHT_TICKS,
                        cur_ships == self.state.ships@.len(),
                        max_ships == (if cur_ships > prev.ships@.len() { cur_ships as int } else { prev.ships@.len() as int }),
                        forall|i: int| 0 <= i < cash0.len() ==> #[trigger] self.ship_cash_hi@[i] == (if i < idx {
                            mark(cash0[i], i < self.state.ships@.len() && i < prev.ships@.len()
                                && self.state.ships@[i].cash != prev.ships@[i].0, until as int,
                                self.state.ships@[i].cash - prev.ships@[i].0)
                        } else {
                            cash0[i]
                        }),
                        forall|i: int| 0 <= i < ton0.len() ==> #[trigger] self.ship_ton_hi@[i] == (if i < idx {
                            mark(ton0[i], i < self.state.ships@.len() && i < prev.ships@.len()
                                && self.state.ships@[i].net_tonnage != prev.ships@[i].1, until as int,
                                self.state.ships@[i].net_tonnage - prev.ships@[i].1)
                        } else {
                            ton0[i]
                        }),
                    decreases max_ships - idx,
                {
                    if idx < self.state.ships.len() && idx < prev.ships.len() {
                        let c_cash = self.state.ships[idx].cash;
                        let c_ton = self.state.ships[idx].net_tonnage;
                        let p_cash = prev.ships[idx].0;
                        let p_ton = prev.ships[idx].1;
                        proof {
                            assert(credits_ok(c_cash as int) && figure_ok(c_ton as int));
                            assert(credits_ok(p_cash as int) && figure_ok(p_ton as int));
                        }
                        if c_cash != p_cash {
                            self.ship_cash_hi[idx] = Highlight::new(until, c_cash - p_cash);
                        }
                        if c_ton != p_ton {
                            self.ship_ton_hi[idx] = Highlight::new(until, (c_ton - p_ton) as i64);
                        }
                    }
                    idx = idx + 1;
                }
                proof {
                    assert(self.ship_cash_hi@ =~= Seq::new(cash0.len(), |i: int| mark(
                        cash0[i],
                        i < self.state.ships@.len() && i < prev.ships@.len() && self.state.ships@[i].cash != prev.ships@[i].0,
                        until as int,
                        self.state.ships@[i].cash - prev.ships@[i].0,
                    )));
                    assert(self.ship_ton_hi@ =~= Seq::new(ton0.len(), |i: int| mark(
                        ton0[i],
                        i < self.state.ships@.len() && i < prev.ships@.len() && self.state.ships@[i].net_tonnage != prev.ships@[i].1,
                        until as int,
                        self.state.ships@[i].net_tonnage - prev.ships@[i].1,
                    )));
                }
                self.refresh_cargo(&prev, until);
                self.refresh_markets(&prev, until);
            },
        }
        self.prev_state = Some(Snapshot::of(&self.state));
    }

    fn refresh_cargo(&mut self, prev: &Snapshot, until: u64)
        requires
            prev.in_range(),
            App::figures_in_range(&old(self).state),
        ensures
            final(self).cargo_hi@.len() == (if old(self).cargo_hi@.len() < old(self).state.ships@.len() {
                old(self).state.ships@.len() as int
            } else {
                old(self).cargo_hi@.len() as int
            }),
            forall|i: int| 0 <= i < final(self).cargo_hi@.len() ==> (#[trigger] final(self).cargo_hi@[i])@ == (
                if i < old(self).state.ships@.len() {
                    marked_row(
                        if i < old(self).cargo_hi@.len() { old(self).cargo_hi@[i]@ } else { Seq::new(6, |k: int| blank()) },
                        old(self).state.ships@[i].cargo@,
                        prev.ships@[i].2@,
                        i < prev.ships@.len(),
                        until as int,
                    )
                } else {
                    old(self).cargo_hi@[i]@
                }),
            *final(self) == (App { cargo_hi: final(self).cargo_hi, ..*old(self) }),
    {
        let n = self.state.ships.len();
        while self.cargo_hi.len() < n
            invariant
                n == self.state.ships@.len(),
                self.state == old(self).state,
                *self == (App { cargo_hi: self.cargo_hi, ..*old(self) }),
                old(self).cargo_hi@.len() <= self.cargo_hi@.len(),
                self.cargo_hi@.len() > old(self).cargo_hi@.len() ==> self.cargo_hi@.len() <= n,
                forall|i: int| 0 <= i < self.cargo_hi@.len() ==> (#[trigger] self.cargo_hi@[i])@ == (
                    if i < old(self).cargo_hi@.len() { old(self).cargo_hi@[i]@ } else { Seq::new(6, |k: int| blank()) }),
            decreases n - self.cargo_hi@.len(),
        {
            self.cargo_hi.push(blank_highlights(6));
        }
        let ghost rows0 = self.cargo_hi@;
        let mut i: usize = 0;
        while i < n
            invariant
                i <= n,
                n == self.state.ships@.len(),
                n <= rows0.len(),
                self.state == old(self).state,
                prev.in_range(),
                App::figures_in_range(&self.state),
                *self == (App { cargo_hi: self.cargo_hi, ..*old(self) }),
                self.cargo_hi@.len() == rows0.len(),
                rows0.len() == (if old(self).cargo_hi@.len() < n { n as int } else { old(self).cargo_hi@.len() as int }),
                forall|k: int| 0 <= k < rows0.len() ==> (#[trigger] rows0[k])@ == (
                    if k < old(self).cargo_hi@.len() { old(self).cargo_hi@[k]@ } else { Seq::new(6, |t: int| blank()) }),
                forall|k: int| 0 <= k < rows0.len() ==> (#[trigger] self.cargo_hi@[k])@ == (if k < i {
                    marked_row(rows0[k]@, self.state.ships@[k].cargo@, prev.ships@[k].2@, k < prev.ships@.len(), until as int)
                } else {
                    rows0[k]@
                }),
            decreases n - i,
        {
            let both = i < prev.ships.len();
            let cur = self.state.ships[i].cargo;
            let old_cargo: [i32; 6] = if both { prev.ships[i].2 } else { cur };
            proof {
                assert(figures_ok(cur@));
                if both {
                    assert(figures_ok(prev.ships@[i as int].2@));
                }
            }
            let mut row = blank_highlights(0);
            std::mem::swap(&mut row, &mut self.cargo_hi[i]);
            refresh_row(&mut row, &cur, &old_cargo, both, until);
            self.cargo_hi[i] = row;
            proof {
                if !both {
                    assert(row@ == marked_row(rows0[i as int]@, cur@, prev.ships@[i as int].2@, false, until as int));
                }
            }
            i = i + 1;
        }
    }

    fn refresh_markets(&mut self, prev: &Snapshot, until: u64)
        requires
            prev.in_range(),
            App::figures_in_range(&old(self).state),
            old(self).stock_hi@.len() == old(self).price_hi@.len(),
            forall|i: int| 0 <= i < old(self).stock_hi@.len() ==> (#[trigger] old(self).stock_hi@[i])@.len() == old(self).price_hi@[i]@.len(),
        ensures
            final(self).stock_hi@.len() == final(self).price_hi@.len(),
            final(self).stock_hi@.len() == (if old(self).stock_hi@.len() < old(self).state.systems@.len() {
                old(self).state.systems@.len() as int
            } else {
                old(self).stock_hi@.len() as int
            }),
            forall|j: int| 0 <= j < final(self).stock_hi@.len() ==> (#[trigger] final(self).stock_hi@[j])@ == (
                if j < old(self).state.systems@.len() {
                    marked_row(
                        if j < old(self).stock_hi@.len() { old(self).stock_hi@[j]@ } else { Seq::new(6, |k: int| blank()) },
                        old(self).state.systems@[j].stock@,
                        prev.systems@[j].0@,
                        j < prev.systems@.len(),
                        until as int,
                    )
                } else {
                    old(self).stock_hi@[j]@
                }),
            forall|j: int| 0 <= j < final(self).price_hi@.len() ==> (#[trigger] final(self).price_hi@[j])@ == (
                if j < old(self).state.systems@.len() {
                    marked_row(
                        if j < old(self).price_hi@.len() { old(self).price_hi@[j]@ } else { Seq::new(6, |k: int| blank()) },
                        old(self).state.systems@[j].prices@,
                        prev.systems@[j].1@,
                        j < prev.systems@.len(),
                        until as int,
                    )
                } else {
                    old(self).price_hi@[j]@
                }),
            *final(self) == (App { stock_hi: final(self).stock_hi, price_hi: final(self).price_hi, ..*old(self) }),
    {
        let n = self.state.systems.len();
        while self.stock_hi.len() < n
            invariant
                n == self.state.systems@.len(),
                self.state == old(self).state,
                *self == (App { stock_hi: self.stock_hi, price_hi: self.price_hi, ..*old(self) }),
                self.stock_hi@.len() == self.price_hi@.len(),
                old(self).stock_hi@.len() == old(self).price_hi@.len(),
                old(self).stock_hi@.len() <= self.stock_hi@.len(),
                self.stock_hi@.len() > old(self).stock_hi@.len() ==> self.stock_hi@.len() <= n,
                forall|i: int| 0 <= i < self.stock_hi@.len() ==> (#[trigger] self.stock_hi@[i])@ == (
                    if i < old(self).stock_hi@.len() { old(self).stock_hi@[i]@ } else { Seq::new(6, |k: int| blank()) }),
                forall|i: int| 0 <= i < self.price_hi@.len() ==> (#[trigger] self.price_hi@[i])@ == (
                    if i < old(self).price_hi@.len() { old(self).price_hi@[i]@ } else { Seq::new(6, |k: int| blank()) }),
            decreases n - self.stock_hi@.len(),
        {
            self.stock_hi.push(blank_highlights(6));
            self.price_hi.push(blank_highlights(6));
        }
        let ghost stock0 = self.stock_hi@;
        let ghost price0 = self.price_hi@;
        let mut j: usize = 0;
        while j < n
            invariant
                j <= n,
                n == self.state.systems@.len(),
                n <= stock0.len(),
                stock0.len() == price0.len(),
                self.state == old(self).state,
                prev.in_range(),
                App::figures_in_range(&self.state),
                *self == (App { stock_hi: self.stock_hi, price_hi: self.price_hi, ..*old(self) }),
                self.stock_hi@.len() == stock0.len(),
                self.price_hi@.len() == price0.len(),
                stock0.len() == (if old(self).stock_hi@.len() < n { n as int } else { old(self).stock_hi@.len() as int }),
                forall|k: int| 0 <= k < stock0.len() ==> (#[trigger] stock0[k])@ == (
                    if k < old(self).stock_hi@.len() { old(self).stock_hi@[k]@ } else { Seq::new(6, |t: int| blank()) }),
                forall|k: int| 0 <= k < price0.len() ==> (#[trigger] price0[k])@ == (
                    if k < old(self).price_hi@.len() { old(self).price_hi@[k]@ } else { Seq::new(6, |t: int| blank()) }),
                forall|k: int| 0 <= k < stock0.len() ==> (#[trigger] self.stock_hi@[k])@ == (if k < j {
                    marked_row(stock0[k]@, self.state.systems@[k].stock@, prev.systems@[k].0@, k < prev.systems@.len(), until as int)
                } else {
                    stock0[k]@
                }),
                forall|k: int| 0 <= k < price0.len() ==> (#[trigger] self.price_hi@[k])@ == (if k < j {
                    marked_row(price0[k]@, self.state.systems@[k].prices@, prev.systems@[k].1@, k < prev.systems@.len(), until as int)
                } else {
                    price0[k]@
                }),
            decreases n - j,
        {
            let both = j < prev.systems.len();
            let cur_stock = self.state.systems[j].stock;
            let cur_prices = self.state.systems[j].prices;
            let old_stock: [i32; 6] = if both { prev.systems[j].0 } else { cur_stock };
            let old_prices: [i32; 6] = if both { prev.systems[j].1 } else { cur_prices };
            proof {
                assert(figures_ok(cur_stock@) && figures_ok(cur_prices@));
                if both {
                    assert(figures_ok(prev.systems@[j as int].0@) && figures_ok(prev.systems@[j as int].1@));
                }
            }
            let mut row = blank_highlights(0);
            std::mem::swap(&mut row, &mut self.stock_hi[j]);
            refresh_row(&mut row, &cur_stock, &old_stock, both, until);
            self.stock_hi[j] = row;
            let mut prow = blank_highlights(0);
            std::mem::swap(&mut prow, &mut self.price_hi[j]);
            refresh_row(&mut prow, &cur_prices, &old_prices, both, until);
            self.price_hi[j] = prow;
            proof {
                if !both {
                    assert(row@ == marked_row(stock0[j as int]@, cur_stock@, prev.systems@[j as int].0@, false, until as int));
                    assert(prow@ == marked_row(price0[j as int]@, cur_prices@, prev.systems@[j as int].1@, false, until as int));
                }
            }
            j = j + 1;
        }
    }
}

/// The key hints of the game screen's footer.
pub open spec fn footer_hint_texts(kb: KeyBindings) -> Seq<(Seq<char>, Seq<char>)> {
    let l = |c: Command| crate::keys::key_label(kb.key_of(c));
    seq![
        (l(Command::FocusSystems) + "/"@ + l(Command::FocusMarket) + "/"@ + l(Command::FocusShips), "focus panels"@),
        ("arrows"@, "move active"@),
        (l(Command::PrevGood) + "/"@ + l(Command::NextGood), "cycle goods"@),
        (l(Command::SetCourse), "set course"@),
        (l(Command::Buy) + "/"@ + l(Command::Sell), "trade"@),
        (l(Command::Deposit) + "/"@ + l(Command::Withdraw), "bank"@),
        (l(Command::SetDestination) + " #"@, "jump system"@),
        (l(Command::PickDestination), "pick dest"@),
        (l(Command::NextArrival), "next arrival"@),
        (l(Command::StarMap), "map"@),
        (l(Command::Report), "report"@),
        (l(Command::Help) + "/"@ + l(Command::HelpAlt), "help"@),
        (l(Command::Save), "save"@),
        (l(Command::Load), "load"@),
        (l(Command::Reset), "reset"@),
        (l(Command::Quit), "quit"@),
    ]
}

/// The key hints shown for each screen.
pub open spec fn hint_texts(screen: Screen, kb: KeyBindings) -> Seq<(Seq<char>, Seq<char>)> {
    match screen {
        Screen::Launch => seq![("Any key"@, "skip"@), ("Auto"@, "after a moment"@)],
        Screen::Menu => seq![("Up/Down"@, "choose"@), ("Enter"@, "select"@), ("Esc/q"@, "quit"@)],
        Screen::Instructions | Screen::About => seq![("Esc"@, "back to menu"@), ("Enter"@, "back to menu"@)],
        Screen::Game => footer_hint_texts(kb),
    }
}

/// The texts of a list of hints.
pub open spec fn hint_views(v: Seq<(String, String)>) -> Seq<(Seq<char>, Seq<char>)> {
    v.map_values(|h: (String, String)| (h.0@, h.1@))
}

fn push_hint(v: &mut Vec<(String, String)>, key: String, what: &str)
    ensures
        hint_views(final(v)@) == hint_views(old(v)@).push((key@, what@)),
{
    v.push((key, text(what)));
    assert(hint_views(v@) =~= hint_views(old(v)@).push((key@, what@)));
}

/// `b` is `a` after leaving the launch screen for the main menu: modals
/// closed, the first entry chosen, and the banner replaced by the menu's
/// greeting (any other status stays).
pub open spec fn launch_step(a: App, b: App) -> bool {
    &&& b.input_buffer@ == Seq::<char>::empty()
    &&& b.status@ == (if a.status@ != "Launching Star Trader..."@ {
        a.status@
    } else {
        "Main menu \u{2014} use Up/Down then Enter."@
    })
    &&& b == (App {
        input_mode: None,
        input_buffer: b.input_buffer,
        pending_trade: None,
        overlay: None,
        screen: Screen::Menu,
        menu_index: 0,
        status: b.status,
        ..a
    })
}

/// `b` is `a` back on the main menu, with modals closed and the first entry chosen.
pub open spec fn back_to_menu(a: App, b: App) -> bool {
    &&& b.input_buffer@ == Seq::<char>::empty()
    &&& b.status@ == "Main menu \u{2014} use Up/Down then Enter."@
    &&& b == (App {
        input_mode: None,
        input_buffer: b.input_buffer,
        pending_trade: None,
        overlay: None,
        screen: Screen::Menu,
        menu_index: 0,
        status: b.status,
        ..a
    })
}

/// A key on the instructions or about screen: Esc, Backspace or Enter
/// return to the menu, `q` quits, other keys do nothing.
pub open spec fn static_step(a: App, b: App, key: Key) -> bool {
    if key == Key::Esc || key == Key::Backspace || key == Key::Enter {
        back_to_menu(a, b)
    } else if key == Key::Char('q') {
        b == (App { quit: true, ..a })
    } else {
        b == a
    }
}

/// The status line naming menu entry `i` (its label and detail).
pub open spec fn menu_announcement(i: int) -> Seq<char> {
    menu_items()[i].label_text() + " - "@ + menu_items()[i].detail_text()
}

/// `b` is `mid` with the status naming `mid`'s chosen menu entry (unchanged
/// when the choice names no entry).
pub open spec fn announced(mid: App, b: App) -> bool {
    &&& b == (App { status: b.status, ..mid })
    &&& (mid.menu_index < MENU_LEN ==> b.status@ == menu_announcement(mid.menu_index as int))
    &&& (mid.menu_index >= MENU_LEN ==> b.status == mid.status)
}

/// `b` is `a` with a screen of text (`screen`) shown, modals closed, and the
/// chosen entry announced.
pub open spec fn opened_page(a: App, b: App, screen: Screen) -> bool {
    &&& b.input_buffer@ == Seq::<char>::empty()
    &&& b.status@ == menu_announcement(a.menu_index as int)
    &&& b == (App {
        input_mode: None,
        input_buffer: b.input_buffer,
        pending_trade: None,
        overlay: None,
        screen,
        status: b.status,
        ..a
    })
}

/// A key on the main menu: Up and Down move the choice round the five
/// entries; Enter activates it (a new game and loading are left to the
/// program, the instructions and about screens open, quitting quits); Esc or
/// `q` quit; other keys change nothing. Afterwards the status names the
/// chosen entry, except when the program has a new game or a load to do.
pub open spec fn menu_step(a: App, b: App, key: Key, r: Effect) -> bool {
    if key == Key::Up {
        let up = if a.menu_index + 4 > usize::MAX { usize::MAX as int } else { a.menu_index + 4 };
        r == Effect::Nothing && announced(App { menu_index: (up % 5) as usize, ..a }, b)
    } else if key == Key::Down {
        r == Effect::Nothing && announced(App { menu_index: ((a.menu_index + 1) % 5) as usize, ..a }, b)
    } else if key == Key::Enter && a.menu_index < MENU_LEN {
        let item = menu_items()[a.menu_index as int];
        if item == MenuItem::NewGame {
            r == Effect::MenuNewGame && b == a
        } else if item == MenuItem::LoadGame {
            r == Effect::MenuLoad && b == a
        } else if item == MenuItem::Instructions {
            r == Effect::Nothing && opened_page(a, b, Screen::Instructions)
        } else if item == MenuItem::About {
            r == Effect::Nothing && opened_page(a, b, Screen::About)
        } else {
            r == Effect::Nothing && announced(App { quit: true, ..a }, b)
        }
    } else if key == Key::Esc || key == Key::Char('q') {
        r == Effect::Nothing && announced(App { quit: true, ..a }, b)
    } else {
        r == Effect::Nothing && announced(a, b)
    }
}

/// `b` is `a` with the game's ship and system selections set as given.
pub open spec fn selections_set(a: App, b: App, ship: int, system: int) -> bool {
    b == (App {
        state: GameState { selected_ship: ship as usize, selected_system: system as usize, ..a.state },
        ..a
    })
}

/// The system that recentring the map selects: the selected ship's system
/// (at most the last system), or the current selection without a ship.
pub open spec fn recentered(st: GameState) -> int {
    if st.selected_ship < st.ships@.len() {
        let loc = st.ships@[st.selected_ship as int].location;
        let last = if st.systems@.len() > 0 { st.systems@.len() - 1 } else { 0 };
        if loc < last { loc as int } else { last as int }
    } else {
        st.selected_system as int
    }
}

/// `b` is `a` with the active panel's selection (system, good or ship)
/// stepped by `delta`, wrapping around.
pub open spec fn panel_step(a: App, b: App, delta: i8) -> bool {
    let st = a.state;
    match a.active_panel {
        ActivePanel::Systems => selections_set(
            a,
            b,
            st.selected_ship as int,
            stepped(st.selected_system, delta, st.systems@.len() as int),
        ),
        ActivePanel::Market => good_set(a, b, crate::world::cycled(st.selected_good, delta, 6)),
        ActivePanel::Ships => selections_set(
            a,
            b,
            stepped(st.selected_ship, delta, st.ships@.len() as int),
            st.selected_system as int,
        ),
    }
}

/// `b` is `a` with overlay `o` closed if it is the one shown (status
/// "Closed overlay"), else shown with `msg` as status and log entry.
pub open spec fn overlay_toggled(a: App, b: App, o: Overlay, msg: Seq<char>) -> bool {
    if a.overlay == Some(o) {
        &&& b.status@ == "Closed overlay"@
        &&& b == (App { overlay: None, status: b.status, ..a })
    } else {
        &&& b.status@ == msg
        &&& b.events@ == logged(a.events@, b.status)
        &&& b == (App { overlay: Some(o), status: b.status, events: b.events, ..a })
    }
}

/// A key while an overlay is shown: Esc closes it; the quit key quits; `r`
/// or `R` recentres the map on the selected ship's system; the reset key
/// resets (left to the program); the map, report and help keys switch
/// overlays; Tab and Down, Shift+Tab and Up choose the next and previous
/// ship, Right and Left the next and previous system; Enter sets course
/// (left to the program); other keys do nothing.
pub open spec fn overlay_step(a: App, b: App, key: Key, r: Effect) -> bool {
    let kb = a.keybinds;
    let st = a.state;
    let ns = st.ships@.len() as int;
    let nsys = st.systems@.len() as int;
    if key == Key::Esc {
        &&& r == Effect::Nothing
        &&& b.status@ == "Closed overlay"@
        &&& b == (App { overlay: None, status: b.status, ..a })
    } else if key == kb.key_of(Command::Quit) {
        r == Effect::Nothing && b == (App { quit: true, ..a })
    } else if key == Key::Char('r') || key == Key::Char('R') {
        r == Effect::Nothing && selections_set(a, b, st.selected_ship as int, recentered(st))
    } else if key == kb.key_of(Command::Reset) {
        r == Effect::Reset && b == a
    } else if key == kb.key_of(Command::StarMap) {
        r == Effect::Nothing && overlay_toggled(a, b, Overlay::StarMap, "Map overlay \u{2014} Esc to close"@)
    } else if key == kb.key_of(Command::Report) {
        r == Effect::Nothing && overlay_toggled(a, b, Overlay::Report, "Trade report \u{2014} Esc to close"@)
    } else if key == kb.key_of(Command::Help) || key == kb.key_of(Command::HelpAlt) {
        r == Effect::Nothing && overlay_toggled(a, b, Overlay::Help, "Help \u{2014} Esc to close"@)
    } else if key == Key::Tab || key == Key::Down {
        r == Effect::Nothing && selections_set(a, b, stepped(st.selected_ship, 1i8, ns), st.selected_system as int)
    } else if key == Key::BackTab || key == Key::Up {
        r == Effect::Nothing && selections_set(a, b, stepped(st.selected_ship, -1i8, ns), st.selected_system as int)
    } else if key == Key::Right {
        r == Effect::Nothing && selections_set(a, b, st.selected_ship as int, stepped(st.selected_system, 1i8, nsys))
    } else if key == Key::Left {
        r == Effect::Nothing && selections_set(a, b, st.selected_ship as int, stepped(st.selected_system, -1i8, nsys))
    } else if key == Key::Enter {
        r == Effect::SetCourse && b == a
    } else {
        r == Effect::Nothing && b == a
    }
}

/// A key while the input bar is open: Esc cancels the entry and any pending
/// negotiation; while a destination is picked, arrows choose the system;
/// Backspace deletes the last character; digits are typed; Enter closes the
/// bar and carries out the entry (see `input_applied`); other keys do
/// nothing.
pub open spec fn input_step(a: App, b: App, key: Key, r: Effect) -> bool {
    let st = a.state;
    if key == Key::Esc {
        &&& r == Effect::Nothing
        &&& b.input_buffer@ == Seq::<char>::empty()
        &&& b.status@ == "Canceled."@
        &&& b == (App { input_mode: None, input_buffer: b.input_buffer, status: b.status, pending_trade: None, ..a })
    } else if key == Key::Up || key == Key::Down || key == Key::Left || key == Key::Right {
        &&& r == Effect::Nothing
        &&& if a.input_mode == Some(InputMode::PickDestination) {
            selections_set(
                a,
                b,
                st.selected_ship as int,
                stepped(st.selected_system, if key == Key::Up || key == Key::Left { -1i8 } else { 1i8 }, st.systems@.len() as int),
            )
        } else {
            b == a
        }
    } else if key == Key::Backspace {
        &&& r == Effect::Nothing
        &&& b == (App { input_buffer: b.input_buffer, ..a })
        &&& b.input_buffer@ == (if a.input_buffer@.len() > 0 { a.input_buffer@.drop_last() } else { a.input_buffer@ })
    } else if key is Char && '0' <= key->Char_0 && key->Char_0 <= '9' {
        &&& r == Effect::Nothing
        &&& b == (App { input_buffer: b.input_buffer, ..a })
        &&& b.input_buffer@ == a.input_buffer@.push(key->Char_0)
    } else if key == Key::Enter {
        match a.input_mode {
            None => r == Effect::Nothing && b.input_buffer@ == Seq::<char>::empty() && b == (App {
                input_buffer: b.input_buffer,
                ..a
            }),
            Some(m) => exists|mid: App| {
                &&& mid == (App { input_mode: None, input_buffer: mid.input_buffer, ..a })
                &&& mid.input_buffer@ == Seq::<char>::empty()
                &&& #[trigger] input_applied(mid, b, m, parsed_i32(a.input_buffer@), r)
            },
        }
    } else {
        r == Effect::Nothing && b == a
    }
}

/// `b` is `a` with the input bar opened in `mode`, empty, under `prompt`.
pub open spec fn input_opened(a: App, b: App, mode: InputMode, prompt: Seq<char>) -> bool {
    &&& b.input_buffer@ == Seq::<char>::empty()
    &&& b.status@ == prompt
    &&& b == (App { input_mode: Some(mode), input_buffer: b.input_buffer, status: b.status, ..a })
}

/// `b` is `a` with the active panel `p` and status `msg`.
pub open spec fn focused(a: App, b: App, p: ActivePanel, msg: Seq<char>) -> bool {
    &&& b.status@ == msg
    &&& b == (App { active_panel: p, status: b.status, ..a })
}

/// `b` is `a` with the selected good `g`.
pub open spec fn good_set(a: App, b: App, g: int) -> bool {
    b == (App { state: GameState { selected_good: g as usize, ..a.state }, ..a })
}

/// A key on the game screen with neither input bar nor overlay: arrows move
/// through the active panel (Up and Left back); a bound key triggers its
/// command; an unbound Tab or Shift+Tab chooses the next or previous ship;
/// other keys do nothing. What needs the program is returned as an effect.
pub open spec fn game_step(a: App, b: App, key: Key, r: Effect) -> bool {
    let st = a.state;
    if key == Key::Up || key == Key::Left {
        r == Effect::Nothing && panel_step(a, b, -1i8)
    } else if key == Key::Down || key == Key::Right {
        r == Effect::Nothing && panel_step(a, b, 1i8)
    } else {
        match a.keybinds.command_of(key) {
            None => if key == Key::Tab {
                r == Effect::Nothing && selections_set(a, b, stepped(st.selected_ship, 1i8, st.ships@.len() as int), st.selected_system as int)
            } else if key == Key::BackTab {
                r == Effect::Nothing && selections_set(a, b, stepped(st.selected_ship, -1i8, st.ships@.len() as int), st.selected_system as int)
            } else {
                r == Effect::Nothing && b == a
            },
            Some(c) => match c {
                Command::SetCourse => r == Effect::SetCourse && b == a,
                Command::NextArrival => r == Effect::NextArrival && b == a,
                Command::Save => r == Effect::Save && b == a,
                Command::Load => r == Effect::Load && b == a,
                Command::Reset => r == Effect::Reset && b == a,
                Command::Quit => r == Effect::Nothing && b == (App { quit: true, ..a }),
                Command::FocusSystems => r == Effect::Nothing && focused(a, b, ActivePanel::Systems, "Focused Star Systems"@),
                Command::FocusMarket => r == Effect::Nothing && focused(a, b, ActivePanel::Market, "Focused Market"@),
                Command::FocusShips => r == Effect::Nothing && focused(a, b, ActivePanel::Ships, "Focused Ships"@),
                Command::Buy => r == Effect::Nothing && input_opened(a, b, InputMode::Buy, buy_prompt_text(&st)),
                Command::Sell => r == Effect::Nothing && input_opened(a, b, InputMode::Sell, sell_prompt_text(&st)),
                Command::Deposit => r == Effect::Nothing && input_opened(a, b, InputMode::Deposit, deposit_prompt_text(&st)),
                Command::Withdraw => r == Effect::Nothing && input_opened(a, b, InputMode::Withdraw, withdraw_prompt_text(&st)),
                Command::SetDestination => r == Effect::Nothing && input_opened(
                    a,
                    b,
                    InputMode::SetDestination,
                    destination_prompt_text(&st),
                ),
                Command::PickDestination => r == Effect::Nothing && b.status@
                    == "Pick destination with arrows, Enter to set, Esc to cancel."@ && b == (App {
                    input_mode: Some(InputMode::PickDestination),
                    status: b.status,
                    ..a
                }),
                Command::StarMap => r == Effect::Nothing && b.status@ == "Map overlay \u{2014} Esc to close"@
                    && b.events@ == logged(a.events@, b.status)
                    && b == (App { overlay: Some(Overlay::StarMap), status: b.status, events: b.events, ..a }),
                Command::Report => r == Effect::Nothing && b.status@ == "Trade report \u{2014} Esc to close"@
                    && b.events@ == logged(a.events@, b.status)
                    && b == (App { overlay: Some(Overlay::Report), status: b.status, events: b.events, ..a }),
                Command::Help | Command::HelpAlt => r == Effect::Nothing && b.status@ == "Help \u{2014} Esc to close"@
                    && b.events@ == logged(a.events@, b.status)
                    && b == (App { overlay: Some(Overlay::Help), status: b.status, events: b.events, ..a }),
                Command::PrevGood => r == Effect::Nothing && good_set(a, b, crate::world::cycled(st.selected_good, -1i8, 6)),
                Command::NextGood => r == Effect::Nothing && good_set(a, b, crate::world::cycled(st.selected_good, 1i8, 6)),
            },
        }
    }
}

/// Where a key press goes, as `handle_key` routes it: the launch screen
/// gives way to the menu; the menu and the text screens have their own keys;
/// on the game screen an open input bar takes the key first, then an open
/// overlay, then the game itself.
pub open spec fn key_step(a: App, b: App, key: Key, r: Effect) -> bool {
    match a.screen {
        Screen::Launch => r == Effect::Nothing && launch_step(a, b),
        Screen::Menu => menu_step(a, b, key, r),
        Screen::Instructions | Screen::About => r == Effect::Nothing && static_step(a, b, key),
        Screen::Game => if a.input_mode is Some {
            input_step(a, b, key, r)
        } else if a.overlay is Some {
            overlay_step(a, b, key, r)
        } else {
            game_step(a, b, key, r)
        },
    }
}

impl KeyBindings {
    /// The footer's key hints for the game screen: each command's key
    /// label with what it does.
    pub fn footer_hints(&self) -> (r: Vec<(String, String)>)
        ensures
            hint_views(r@) == footer_hint_texts(*self),
    {
        let mut v: Vec<(String, String)> = Vec::new();
        push_hint(&mut v, self.triple_label(self.key(Command::FocusSystems), self.key(Command::FocusMarket), self.key(Command::FocusShips)), "focus panels");
        push_hint(&mut v, text("arrows"), "move active");
        push_hint(&mut v, self.pair_label(self.key(Command::PrevGood), self.key(Command::NextGood)), "cycle goods");
        push_hint(&mut v, self.label(self.key(Command::SetCourse)), "set course");
        push_hint(&mut v, self.pair_label(self.key(Command::Buy), self.key(Command::Sell)), "trade");
        push_hint(&mut v, self.pair_label(self.key(Command::Deposit), self.key(Command::Withdraw)), "bank");
        let mut jump = self.label(self.key(Command::SetDestination));
        jump.append(" #");
        push_hint(&mut v, jump, "jump system");
        push_hint(&mut v, self.label(self.key(Command::PickDestination)), "pick dest");
        push_hint(&mut v, self.label(self.key(Command::NextArrival)), "next arrival");
        push_hint(&mut v, self.label(self.key(Command::StarMap)), "map");
        push_hint(&mut v, self.label(self.key(Command::Report)), "report");
        push_hint(&mut v, self.pair_label(self.key(Command::Help), self.key(Command::HelpAlt)), "help");
        push_hint(&mut v, self.label(self.key(Command::Save)), "save");
        push_hint(&mut v, self.label(self.key(Command::Load)), "load");
        push_hint(&mut v, self.label(self.key(Command::Reset)), "reset");
        push_hint(&mut v, self.label(self.key(Command::Quit)), "quit");
        assert(hint_views(v@) =~= footer_hint_texts(*self));
        v
    }
}

impl App {
    pub fn screen(&self) -> (r: Screen)
        ensures
            r == self.screen,
    {
        self.screen
    }

    /// The main menu's entries.
    pub fn menu_items(&self) -> (r: [MenuItem; 5])
        ensures
            r@ == menu_items(),
    {
        let r = [MenuItem::NewGame, MenuItem::LoadGame, MenuItem::Instructions, MenuItem::About, MenuItem::Quit];
        assert(r@ =~= menu_items());
        r
    }

    /// The chosen menu entry, clamped to the last one.
    pub fn menu_index(&self) -> (r: usize)
        ensures
            r == (if self.menu_index < MENU_LEN - 1 { self.menu_index as int } else { MENU_LEN - 1 }),
    {
        if self.menu_index < MENU_LEN - 1 { self.menu_index } else { MENU_LEN - 1 }
    }

    pub fn status_text(&self) -> (r: &str)
        ensures
            r@ == self.status@,
    {
        self.status.as_str()
    }

    pub fn ticks(&self) -> (r: u64)
        ensures
            r == self.ticks,
    {
        self.ticks
    }

    pub fn events(&self) -> (r: &[String])
        ensures
            r@ == self.events@,
    {
        self.events.as_slice()
    }

    pub fn overlay(&self) -> (r: Option<Overlay>)
        ensures
            r == self.overlay,
    {
        self.overlay
    }

    /// The change shown on the bank balance, while its highlight lasts.
    pub fn bank_highlight(&self) -> (r: Option<i64>)
        ensures
            r == (if self.bank_hi.is_active(self.ticks) { Some(self.bank_hi.delta) } else { None }),
    {
        if self.bank_hi.active(self.ticks) { Some(self.bank_hi.delta) } else { None }
    }

    pub open spec fn shown(&self, table: Seq<Highlight>, idx: int) -> Option<i64> {
        if 0 <= idx < table.len() && table[idx].is_active(self.ticks) {
            Some(table[idx].delta)
        } else {
            None
        }
    }

    fn shown_in(&self, table: &Vec<Highlight>, idx: usize) -> (r: Option<i64>)
        ensures
            r == self.shown(table@, idx as int),
    {
        if idx < table.len() && table[idx].active(self.ticks) { Some(table[idx].delta) } else { None }
    }

    fn shown_in_rows(&self, table: &Vec<Vec<Highlight>>, row: usize, idx: usize) -> (r: Option<i64>)
        ensures
            r == (if row < table@.len() { self.shown(table@[row as int]@, idx as int) } else { None }),
    {
        if row < table.len() { self.shown_in(&table[row], idx) } else { None }
    }

    /// The change shown on a ship's cash, while its highlight lasts.
    pub fn ship_cash_highlight(&self, idx: usize) -> (r: Option<i64>)
        ensures
            r == self.shown(self.ship_cash_hi@, idx as int),
    {
        self.shown_in(&self.ship_cash_hi, idx)
    }

    /// The change shown on a ship's tonnage, while its highlight lasts.
    pub fn ship_tonnage_highlight(&self, idx: usize) -> (r: Option<i64>)
        ensures
            r == self.shown(self.ship_ton_hi@, idx as int),
    {
        self.shown_in(&self.ship_ton_hi, idx)
    }

    /// The change shown on a ship's cargo of a good, while its highlight lasts.
    pub fn cargo_highlight(&self, ship_idx: usize, good_idx: usize) -> (r: Option<i64>)
        ensures
            r == (if ship_idx < self.cargo_hi@.len() { self.shown(self.cargo_hi@[ship_idx as int]@, good_idx as int) } else { None }),
    {
        self.shown_in_rows(&self.cargo_hi, ship_idx, good_idx)
    }

    /// The change shown on a system's stock of a good, while its highlight lasts.
    pub fn stock_highlight(&self, system_idx: usize, good_idx: usize) -> (r: Option<i64>)
        ensures
            r == (if system_idx < self.stock_hi@.len() { self.shown(self.stock_hi@[system_idx as int]@, good_idx as int) } else { None }),
    {
        self.shown_in_rows(&self.stock_hi, system_idx, good_idx)
    }

    /// The change shown on a system's price of a good, while its highlight lasts.
    pub fn price_highlight(&self, system_idx: usize, good_idx: usize) -> (r: Option<i64>)
        ensures
            r == (if system_idx < self.price_hi@.len() { self.shown(self.price_hi@[system_idx as int]@, good_idx as int) } else { None }),
    {
        self.shown_in_rows(&self.price_hi, system_idx, good_idx)
    }

    /// The key hints for the current screen.
    pub fn key_hints(&self) -> (r: Vec<(String, String)>)
        ensures
            hint_views(r@) == hint_texts(self.screen, self.keybinds),
    {
        match self.screen {
            Screen::Launch => {
                let mut v: Vec<(String, String)> = Vec::new();
                push_hint(&mut v, text("Any key"), "skip");
                push_hint(&mut v, text("Auto"), "after a moment");
                assert(hint_views(v@) =~= hint_texts(self.screen, self.keybinds));
                v
            },
            Screen::Menu => {
                let mut v: Vec<(String, String)> = Vec::new();
                push_hint(&mut v, text("Up/Down"), "choose");
                push_hint(&mut v, text("Enter"), "select");
                push_hint(&mut v, text("Esc/q"), "quit");
                assert(hint_views(v@) =~= hint_texts(self.screen, self.keybinds));
                v
            },
            Screen::Instructions | Screen::About => {
                let mut v: Vec<(String, String)> = Vec::new();
                push_hint(&mut v, text("Esc"), "back to menu");
                push_hint(&mut v, text("Enter"), "back to menu");
                assert(hint_views(v@) =~= hint_texts(self.screen, self.keybinds));
                v
            },
            Screen::Game => self.keybinds.footer_hints(),
        }
    }
}

impl Snapshot {
    /// All figures of the snapshot are within the accepted ranges.
    pub open spec fn in_range(&self) -> bool {
        &&& credits_ok(self.bank_balance as int)
        &&& forall|i: int| #![trigger self.ships@[i]] 0 <= i < self.ships@.len() ==> {
            &&& credits_ok(self.ships@[i].0 as int)
            &&& figure_ok(self.ships@[i].1 as int)
            &&& figures_ok(self.ships@[i].2@)
        }
        &&& forall|j: int| #![trigger self.systems@[j]] 0 <= j < self.systems@.len() ==> {
            &&& figures_ok(self.systems@[j].0@)
            &&& figures_ok(self.systems@[j].1@)
        }
    }

    /// The snapshot of a game's figures.
    pub fn of(state: &GameState) -> (r: Snapshot)
        ensures
            r.bank_balance == state.bank_balance,
            r.ships@.len() == state.ships@.len(),
            forall|i: int| 0 <= i < state.ships@.len() ==> #[trigger] r.ships@[i] == (
                state.ships@[i].cash,
                state.ships@[i].net_tonnage,
                state.ships@[i].cargo,
            ),
            r.systems@.len() == state.systems@.len(),
            forall|j: int| 0 <= j < state.systems@.len() ==> #[trigger] r.systems@[j] == (
                state.systems@[j].stock,
                state.systems@[j].prices,
            ),
            App::figures_in_range(state) ==> r.in_range(),
    {
        let mut ships: Vec<(i64, i32, [i32; 6])> = Vec::new();
        let mut i: usize = 0;
        while i < state.ships.len()
            invariant
                i <= state.ships@.len(),
                ships@.len() == i,
                forall|k: int| 0 <= k < i ==> #[trigger] ships@[k] == (
                    state.ships@[k].cash,
                    state.ships@[k].net_tonnage,
                    state.ships@[k].cargo,
                ),
            decreases state.ships@.len() - i,
        {
            let s = &state.ships[i];
            ships.push((s.cash, s.net_tonnage, s.cargo));
            i = i + 1;
        }
        let mut systems: Vec<([i32; 6], [i32; 6])> = Vec::new();
        let mut j: usize = 0;
        while j < state.systems.len()
            invariant
                j <= state.systems@.len(),
                systems@.len() == j,
                forall|k: int| 0 <= k < j ==> #[trigger] systems@[k] == (
                    state.systems@[k].stock,
                    state.systems@[k].prices,
                ),
            decreases state.systems@.len() - j,
        {
            let s = &state.systems[j];
            systems.push((s.stock, s.prices));
            j = j + 1;
        }
        Snapshot { bank_balance: state.bank_balance, ships, systems }
    }
}

} // verus!
