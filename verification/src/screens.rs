use vstd::prelude::*;

verus! {

/// The panel that arrow keys move through on the game screen.
#[derive(Debug, Clone, Copy, PartialEq, Eq, Structural)]
pub enum ActivePanel {
    Systems,
    Market,
    Ships,
}

/// What the input bar is collecting.
#[derive(Debug, Clone, Copy, PartialEq, Eq, Structural)]
pub enum InputMode {
    Buy,
    Sell,
    Deposit,
    Withdraw,
    SetDestination,
    PickDestination,
    TradePrice,
}

/// A window drawn over the game screen.
#[derive(Debug, Clone, Copy, PartialEq, Eq, Structural)]
pub enum Overlay {
    StarMap,
    Report,
    Help,
}

/// The screens of the program.
#[derive(Debug, Clone, Copy, PartialEq, Eq, Structural)]
pub enum Screen {
    Launch,
    Menu,
    Game,
    Instructions,
    About,
}

impl Screen {
    /// The game screen (where a saved game without a screen resumes).
    pub fn game() -> (r: Screen)
        ensures
            r == Screen::Game,
    {
        Screen::Game
    }
}

impl Default for Screen {
    /// The program starts on the launch screen.
    fn default() -> (r: Screen)
        ensures
            r == Screen::Launch,
    {
        Screen::Launch
    }
}

/// The entries of the main menu.
#[derive(Debug, Clone, Copy, PartialEq, Eq, Structural)]
pub enum MenuItem {
    NewGame,
    LoadGame,
    Instructions,
    About,
    Quit,
}

/// Number of entries in the main menu.
pub const MENU_LEN: usize = 5;

/// The main menu, top to bottom.
pub open spec fn menu_items() -> Seq<MenuItem> {
    seq![MenuItem::NewGame, MenuItem::LoadGame, MenuItem::Instructions, MenuItem::About, MenuItem::Quit]
}

impl MenuItem {
    pub open spec fn label_text(self) -> Seq<char> {
        match self {
            MenuItem::NewGame => "New Game"@,
            MenuItem::LoadGame => "Load Game"@,
            MenuItem::Instructions => "Instructions"@,
            MenuItem::About => "About"@,
            MenuItem::Quit => "Quit"@,
        }
    }

    pub open spec fn detail_text(self) -> Seq<char> {
        match self {
            MenuItem::NewGame => "Start a fresh demo run"@,
            MenuItem::LoadGame => "Resume the last save"@,
            MenuItem::Instructions => "Controls and gameplay tips"@,
            MenuItem::About => "Credits and version info"@,
            MenuItem::Quit => "Exit Star Trader"@,
        }
    }

    pub fn label(&self) -> (r: &'static str)
        ensures
            r@ == self.label_text(),
    {
        match self {
            MenuItem::NewGame => "New Game",
            MenuItem::LoadGame => "Load Game",
            MenuItem::Instructions => "Instructions",
            MenuItem::About => "About",
            MenuItem::Quit => "Quit",
        }
    }

    pub fn detail(&self) -> (r: &'static str)
        ensures
            r@ == self.detail_text(),
    {
        match self {
            MenuItem::NewGame => "Start a fresh demo run",
            MenuItem::LoadGame => "Resume the last save",
            MenuItem::Instructions => "Controls and gameplay tips",
            MenuItem::About => "Credits and version info",
            MenuItem::Quit => "Exit Star Trader",
        }
    }

    /// The menu entry at position `i`, if there is one.
    pub fn at(i: usize) -> (r: Option<MenuItem>)
        ensures
            r == (if i < MENU_LEN { Some(menu_items()[i as int]) } else { None }),
    {
        if i == 0 {
            Some(MenuItem::NewGame)
        } else if i == 1 {
            Some(MenuItem::LoadGame)
        } else if i == 2 {
            Some(MenuItem::Instructions)
        } else if i == 3 {
            Some(MenuItem::About)
        } else if i == 4 {
            Some(MenuItem::Quit)
        } else {
            None
        }
    }
}

/// A recent change to a displayed number: shown until tick `until`, with
/// the size `delta` of the change.
#[derive(Debug, Clone, Copy, PartialEq, Eq, Structural)]
pub struct Highlight {
    pub until: u64,
    pub delta: i64,
}

impl Highlight {
    pub fn new(until: u64, delta: i64) -> (r: Highlight)
        ensures
            r == (Highlight { until, delta }),
    {
        Highlight { until, delta }
    }

    /// No highlight.
    pub fn none() -> (r: Highlight)
        ensures
            r == (Highlight { until: 0, delta: 0 }),
    {
        Highlight { until: 0, delta: 0 }
    }

    pub open spec fn is_active(&self, now: u64) -> bool {
        now <= self.until && self.delta != 0
    }

    /// A highlight shows while its time has not run out and it records a change.
    pub fn active(&self, now: u64) -> (r: bool)
        ensures
            r == self.is_active(now),
    {
        now <= self.until && self.delta != 0
    }
}

} // verus!
