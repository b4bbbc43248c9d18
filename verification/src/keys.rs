use vstd::prelude::*;
use vstd::string::*;

use crate::text::text;

verus! {

/// A key press, as the game reads it.
#[derive(Debug, Clone, Copy, PartialEq, Eq, Structural)]
pub enum Key {
    Char(char),
    Up,
    Down,
    Left,
    Right,
    Enter,
    Esc,
    Backspace,
    Tab,
    BackTab,
    /// Any other key; the game does nothing with it.
    Other,
}

/// The rebindable commands, in the order of the key-binding file.
#[derive(Debug, Clone, Copy, PartialEq, Eq, Structural)]
pub enum Command {
    Quit,
    Reset,
    FocusSystems,
    FocusMarket,
    FocusShips,
    PrevGood,
    NextGood,
    SetCourse,
    Buy,
    Sell,
    Deposit,
    Withdraw,
    SetDestination,
    PickDestination,
    NextArrival,
    StarMap,
    Report,
    Help,
    HelpAlt,
    Save,
    Load,
}

/// Number of rebindable commands.
pub const COMMAND_COUNT: usize = 21;

impl Command {
    /// Position of the command in the binding table and the binding file.
    pub open spec fn slot_of(self) -> int {
        match self {
            Command::Quit => 0,
            Command::Reset => 1,
            Command::FocusSystems => 2,
            Command::FocusMarket => 3,
            Command::FocusShips => 4,
            Command::PrevGood => 5,
            Command::NextGood => 6,
            Command::SetCourse => 7,
            Command::Buy => 8,
            Command::Sell => 9,
            Command::Deposit => 10,
            Command::Withdraw => 11,
            Command::SetDestination => 12,
            Command::PickDestination => 13,
            Command::NextArrival => 14,
            Command::StarMap => 15,
            Command::Report => 16,
            Command::Help => 17,
            Command::HelpAlt => 18,
            Command::Save => 19,
            Command::Load => 20,
        }
    }

    pub fn slot(self) -> (r: usize)
        ensures
            r == self.slot_of(),
            r < COMMAND_COUNT,
    {
        match self {
            Command::Quit => 0,
            Command::Reset => 1,
            Command::FocusSystems => 2,
            Command::FocusMarket => 3,
            Command::FocusShips => 4,
            Command::PrevGood => 5,
            Command::NextGood => 6,
            Command::SetCourse => 7,
            Command::Buy => 8,
            Command::Sell => 9,
            Command::Deposit => 10,
            Command::Withdraw => 11,
            Command::SetDestination => 12,
            Command::PickDestination => 13,
            Command::NextArrival => 14,
            Command::StarMap => 15,
            Command::Report => 16,
            Command::Help => 17,
            Command::HelpAlt => 18,
            Command::Save => 19,
            Command::Load => 20,
        }
    }
}

/// The order in which the game screen tries the bindings of a pressed key.
pub open spec fn dispatch_order() -> Seq<Command> {
    seq![
        Command::PrevGood,
        Command::NextGood,
        Command::FocusSystems,
        Command::FocusMarket,
        Command::FocusShips,
        Command::SetCourse,
        Command::Buy,
        Command::Sell,
        Command::Deposit,
        Command::Withdraw,
        Command::SetDestination,
        Command::PickDestination,
        Command::NextArrival,
        Command::StarMap,
        Command::Report,
        Command::Help,
        Command::HelpAlt,
        Command::Save,
        Command::Load,
        Command::Reset,
        Command::Quit,
    ]
}

/// The key for each command.
#[derive(Debug, Clone, Copy)]
pub struct KeyBindings {
    pub keys: [Key; 21],
}

/// Whether a character has the Unicode White_Space property, which is what
/// `char::is_whitespace` (and so `str::trim`) goes by.
pub open spec fn is_white_space(c: char) -> bool {
    ||| ('\u{9}' <= c && c <= '\u{d}')
    ||| c == ' '
    ||| c == '\u{85}'
    ||| c == '\u{a0}'
    ||| c == '\u{1680}'
    ||| ('\u{2000}' <= c && c <= '\u{200a}')
    ||| c == '\u{2028}'
    ||| c == '\u{2029}'
    ||| c == '\u{202f}'
    ||| c == '\u{205f}'
    ||| c == '\u{3000}'
}

/// The text without its leading white space.
pub open spec fn trim_start(s: Seq<char>) -> Seq<char>
    decreases s.len(),
{
    if s.len() > 0 && is_white_space(s[0]) {
        trim_start(s.drop_first())
    } else {
        s
    }
}

/// The text without its trailing white space.
pub open spec fn trim_end(s: Seq<char>) -> Seq<char>
    decreases s.len(),
{
    if s.len() > 0 && is_white_space(s.last()) {
        trim_end(s.drop_last())
    } else {
        s
    }
}

/// Leading and trailing white space removed, as `str::trim` does.
pub open spec fn trimmed(s: Seq<char>) -> Seq<char> {
    trim_end(trim_start(s))
}

/// The lowercase form, as `str::to_lowercase` gives it.
pub uninterp spec fn lowercased(s: Seq<char>) -> Seq<char>;

/// Whether a character is white space (see `is_white_space`).
fn white_space(c: char) -> (r: bool)
    ensures
        r == is_white_space(c),
{
    ('\u{9}' <= c && c <= '\u{d}') || c == ' ' || c == '\u{85}' || c == '\u{a0}' || c == '\u{1680}'
        || ('\u{2000}' <= c && c <= '\u{200a}') || c == '\u{2028}' || c == '\u{2029}' || c == '\u{202f}'
        || c == '\u{205f}' || c == '\u{3000}'
}

/// The text without leading and trailing white space (see `trimmed`).
fn trim_text(s: &str) -> (r: &str)
    ensures
        r@ == trimmed(s@),
{
    let n = s.unicode_len();
    let mut i: usize = 0;
    assert(s@.subrange(0, n as int) =~= s@);
    while i < n && white_space(s.get_char(i))
        invariant
            i <= n,
            n == s@.len(),
            trim_start(s@) == trim_start(s@.subrange(i as int, n as int)),
        decreases n - i,
    {
        assert(s@.subrange(i as int, n as int).drop_first() =~= s@.subrange(i + 1, n as int));
        i = i + 1;
    }
    assert(trim_start(s@) == s@.subrange(i as int, n as int));
    let mut j: usize = n;
    while j > i && white_space(s.get_char(j - 1))
        invariant
            i <= j <= n,
            n == s@.len(),
            trim_start(s@) == s@.subrange(i as int, n as int),
            trimmed(s@) == trim_end(s@.subrange(i as int, j as int)),
        decreases j,
    {
        assert(s@.subrange(i as int, j as int).drop_last() =~= s@.subrange(i as int, j - 1));
        j = j - 1;
    }
    s.substring_char(i, j)
}

/// `str::to_lowercase`: the lowercase form of the text.
#[verifier::external_body]
fn lowercase_text(s: &str) -> (r: String)
    ensures
        r@ == lowercased(s@),
{
    s.to_lowercase()
}

/// `char::to_string`: a string of the one character.
#[verifier::external_body]
fn char_text(c: char) -> (r: String)
    ensures
        r@ == seq![c],
{
    c.to_string()
}

/// What a key name in the binding file means: a named key, any single
/// one-byte character, or an error naming the label.
pub open spec fn key_for_label(label: Seq<char>) -> Result<Key, Seq<char>> {
    let l = lowercased(trimmed(label));
    if l == "up"@ {
        Ok(Key::Up)
    } else if l == "down"@ {
        Ok(Key::Down)
    } else if l == "left"@ {
        Ok(Key::Left)
    } else if l == "right"@ {
        Ok(Key::Right)
    } else if l == "esc"@ || l == "escape"@ {
        Ok(Key::Esc)
    } else if l == "tab"@ {
        Ok(Key::Tab)
    } else if l == "backtab"@ || l == "shift-tab"@ {
        Ok(Key::BackTab)
    } else if l.len() == 1 && (l[0] as u32) < 128 {
        Ok(Key::Char(l[0]))
    } else {
        Err("Unrecognized key '"@ + label + "'"@)
    }
}

fn same_text(a: &String, b: &str) -> (r: bool)
    ensures
        r == (a@ == b@),
{
    *a == text(b)
}

/// The default keys: q quit, r reset, 1/2/3 focus panels, [ and ] cycle
/// goods, g set course, b buy, s sell, k deposit, l withdraw, p jump to a
/// system, d pick a destination, n next arrival, m map, t report, ? and h
/// help, v save, o load.
pub open spec fn default_keys() -> Seq<Key> {
    seq![
        Key::Char('q'),
        Key::Char('r'),
        Key::Char('1'),
        Key::Char('2'),
        Key::Char('3'),
        Key::Char('['),
        Key::Char(']'),
        Key::Char('g'),
        Key::Char('b'),
        Key::Char('s'),
        Key::Char('k'),
        Key::Char('l'),
        Key::Char('p'),
        Key::Char('d'),
        Key::Char('n'),
        Key::Char('m'),
        Key::Char('t'),
        Key::Char('?'),
        Key::Char('h'),
        Key::Char('v'),
        Key::Char('o'),
    ]
}

/// The label of a key in the footer and help.
pub open spec fn key_label(k: Key) -> Seq<char> {
    match k {
        Key::Char(c) => seq![c],
        Key::Up => "Up"@,
        Key::Down => "Down"@,
        Key::Left => "Left"@,
        Key::Right => "Right"@,
        Key::Esc => "Esc"@,
        Key::Tab => "Tab"@,
        Key::BackTab => "Shift+Tab"@,
        Key::Enter => "Enter"@,
        Key::Backspace => "Backspace"@,
        Key::Other => "Other"@,
    }
}

/// The binding of the first command in `order` from position `i` on that
/// uses key `k`.
pub open spec fn first_bound(keys: Seq<Key>, order: Seq<Command>, k: Key, i: int) -> Option<Command>
    decreases order.len() - i,
{
    if i >= order.len() || i < 0 {
        None
    } else if keys[order[i].slot_of()] == k {
        Some(order[i])
    } else {
        first_bound(keys, order, k, i + 1)
    }
}

impl KeyBindings {
    pub open spec fn key_of(&self, c: Command) -> Key {
        self.keys@[c.slot_of()]
    }

    /// The command that key `k` triggers on the game screen, trying the
    /// bindings in the game's order.
    pub open spec fn command_of(&self, k: Key) -> Option<Command> {
        first_bound(self.keys@, dispatch_order(), k, 0)
    }

    /// The default bindings (see `default_keys`).
    pub fn default() -> (r: KeyBindings)
        ensures
            r.keys@ == default_keys(),
    {
        let r = KeyBindings {
            keys: [
                Key::Char('q'),
                Key::Char('r'),
                Key::Char('1'),
                Key::Char('2'),
                Key::Char('3'),
                Key::Char('['),
                Key::Char(']'),
                Key::Char('g'),
                Key::Char('b'),
                Key::Char('s'),
                Key::Char('k'),
                Key::Char('l'),
                Key::Char('p'),
                Key::Char('d'),
                Key::Char('n'),
                Key::Char('m'),
                Key::Char('t'),
                Key::Char('?'),
                Key::Char('h'),
                Key::Char('v'),
                Key::Char('o'),
            ],
        };
        assert(r.keys@ =~= default_keys());
        r
    }

    /// The key bound to a command.
    pub fn key(&self, c: Command) -> (r: Key)
        ensures
            r == self.key_of(c),
    {
        self.keys[c.slot()]
    }

    /// Reads a key name: `up`, `down`, `left`, `right`, `esc` or `escape`,
    /// `tab`, `backtab` or `shift-tab` (ignoring case and surrounding
    /// spaces), or a single character.
    pub fn parse_key(label: &str) -> (r: Result<Key, String>)
        ensures
            match r {
                Ok(k) => key_for_label(label@) == Ok::<Key, Seq<char>>(k),
                Err(e) => key_for_label(label@) == Err::<Key, Seq<char>>(e@),
            },
    {
        let trimmed_label = trim_text(label);
        let lower = lowercase_text(trimmed_label);
        if same_text(&lower, "up") {
            Ok(Key::Up)
        } else if same_text(&lower, "down") {
            Ok(Key::Down)
        } else if same_text(&lower, "left") {
            Ok(Key::Left)
        } else if same_text(&lower, "right") {
            Ok(Key::Right)
        } else if same_text(&lower, "esc") || same_text(&lower, "escape") {
            Ok(Key::Esc)
        } else if same_text(&lower, "tab") {
            Ok(Key::Tab)
        } else if same_text(&lower, "backtab") || same_text(&lower, "shift-tab") {
            Ok(Key::BackTab)
        } else if lower.as_str().unicode_len() == 1 && (lower.as_str().get_char(0) as u32) < 128 {
            let c = lower.as_str().get_char(0);
            Ok(Key::Char(c))
        } else {
            let mut msg = text("Unrecognized key '");
            msg.append(label);
            msg.append("'");
            Err(msg)
        }
    }

    /// Bindings from the entries of a binding file, in command order: each
    /// present entry replaces the default key of its command; the first entry
    /// that names no key makes the whole file fail with that entry's error.
    pub fn from_config(cfg: &[Option<String>; 21]) -> (r: Result<KeyBindings, String>)
        ensures
            match r {
                Ok(kb) => forall|i: int| 0 <= i < COMMAND_COUNT ==> {
                    &&& (cfg@[i] is None ==> #[trigger] kb.keys@[i] == default_keys()[i])
                    &&& (cfg@[i] matches Some(v) ==> key_for_label(v@) == Ok::<Key, Seq<char>>(kb.keys@[i]))
                },
                Err(e) => exists|i: int| 0 <= i < COMMAND_COUNT && {
                    &&& #[trigger] cfg@[i] matches Some(v)
                    &&& key_for_label(v@) == Err::<Key, Seq<char>>(e@)
                    &&& forall|j: int| 0 <= j < i ==> (#[trigger] cfg@[j] matches Some(w) ==> key_for_label(w@) is Ok)
                },
            },
    {
        let mut kb = KeyBindings::default();
        let mut i: usize = 0;
        while i < COMMAND_COUNT
            invariant
                i <= COMMAND_COUNT,
                forall|j: int| 0 <= j < i ==> {
                    &&& (cfg@[j] is None ==> #[trigger] kb.keys@[j] == default_keys()[j])
                    &&& (cfg@[j] matches Some(v) ==> key_for_label(v@) == Ok::<Key, Seq<char>>(kb.keys@[j]))
                },
                forall|j: int| i <= j < COMMAND_COUNT ==> #[trigger] kb.keys@[j] == default_keys()[j],
                forall|j: int| 0 <= j < i ==> (#[trigger] cfg@[j] matches Some(w) ==> key_for_label(w@) is Ok),
            decreases COMMAND_COUNT - i,
        {
            match &cfg[i] {
                Some(v) => {
                    match KeyBindings::parse_key(v.as_str()) {
                        Ok(k) => {
                            kb.keys[i] = k;
                        },
                        Err(e) => {
                            assert(cfg@[i as int] matches Some(w) && key_for_label(w@) == Err::<Key, Seq<char>>(e@));
                            return Err(e);
                        },
                    }
                },
                None => {},
            }
            i = i + 1;
        }
        Ok(kb)
    }

    /// Whether `k` opens help (either help key).
    pub fn matches_help(&self, k: Key) -> (r: bool)
        ensures
            r == (k == self.key_of(Command::Help) || k == self.key_of(Command::HelpAlt)),
    {
        k == self.key(Command::Help) || k == self.key(Command::HelpAlt)
    }

    /// The command that `k` triggers on the game screen (see `command_of`).
    pub fn command_for(&self, k: Key) -> (r: Option<Command>)
        ensures
            r == self.command_of(k),
    {
        let order: [Command; 21] = [
            Command::PrevGood,
            Command::NextGood,
            Command::FocusSystems,
            Command::FocusMarket,
            Command::FocusShips,
            Command::SetCourse,
            Command::Buy,
            Command::Sell,
            Command::Deposit,
            Command::Withdraw,
            Command::SetDestination,
            Command::PickDestination,
            Command::NextArrival,
            Command::StarMap,
            Command::Report,
            Command::Help,
            Command::HelpAlt,
            Command::Save,
            Command::Load,
            Command::Reset,
            Command::Quit,
        ];
        assert(order@ =~= dispatch_order());
        let mut i: usize = 0;
        while i < 21
            invariant
                i <= 21,
                order@ == dispatch_order(),
                first_bound(self.keys@, dispatch_order(), k, 0) == first_bound(self.keys@, dispatch_order(), k, i as int),
            decreases 21 - i,
        {
            let c = order[i];
            if self.keys[c.slot()] == k {
                return Some(c);
            }
            i = i + 1;
        }
        None
    }

    /// The label of a key: the character itself, or the key's name.
    pub fn label(&self, k: Key) -> (r: String)
        ensures
            r@ == key_label(k),
    {
        match k {
            Key::Char(c) => char_text(c),
            Key::Up => text("Up"),
            Key::Down => text("Down"),
            Key::Left => text("Left"),
            Key::Right => text("Right"),
            Key::Esc => text("Esc"),
            Key::Tab => text("Tab"),
            Key::BackTab => text("Shift+Tab"),
            Key::Enter => text("Enter"),
            Key::Backspace => text("Backspace"),
            Key::Other => text("Other"),
        }
    }

    /// Two key labels joined by a slash.
    pub fn pair_label(&self, a: Key, b: Key) -> (r: String)
        ensures
            r@ == key_label(a) + "/"@ + key_label(b),
    {
        let mut s = self.label(a);
        s.append("/");
        let lb = self.label(b);
        s.append(lb.as_str());
        s
    }

    /// Three key labels joined by slashes.
    pub fn triple_label(&self, a: Key, b: Key, c: Key) -> (r: String)
        ensures
            r@ == key_label(a) + "/"@ + key_label(b) + "/"@ + key_label(c),
    {
        let mut s = self.pair_label(a, b);
        s.append("/");
        let lc = self.label(c);
        s.append(lc.as_str());
        s
    }
}

} // verus!
