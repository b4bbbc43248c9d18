use vstd::prelude::*;
use vstd::string::*;

use crate::display::{abbrev, abbreviated};
use crate::text::{decimal, push_count, push_decimal, text};
use crate::goods::{Merchandise, GOODS_COUNT};
use crate::session::App;
use crate::world::GameState;

verus! {

/// The name of system `id`, or `?` when there is no such system.
pub open spec fn system_label(state: GameState, id: int) -> Seq<char> {
    if 0 <= id < state.systems@.len() {
        state.systems@[id].name@
    } else {
        "?"@
    }
}

/// `s` padded on the left with spaces to at least `width` characters.
pub open spec fn right_aligned(s: Seq<char>, width: int) -> Seq<char> {
    if s.len() < width {
        Seq::new((width - s.len()) as nat, |_i: int| ' ') + s
    } else {
        s
    }
}

/// The texts of a row of cells.
pub open spec fn cells_view(row: Seq<String>) -> Seq<Seq<char>> {
    row.map_values(|c: String| c@)
}

/// The cells of the ships table's row for ship `i` at `width` columns.
/// Under 60 columns (ultra-compact): the abbreviated name and route in one
/// cell, then cash and tonnage. Otherwise: name, route (names abbreviated
/// to six characters under 80 columns), arrival date, cash and tonnage.
pub open spec fn ship_row(state: GameState, i: int, width: int) -> Seq<Seq<char>> {
    let ship = state.ships@[i];
    let loc = system_label(state, ship.location as int);
    let dest = system_label(state, ship.destination as int);
    let cash = "$"@ + decimal(ship.cash as int);
    let tons = decimal(ship.net_tonnage as int) + "t"@;
    if width < 60 {
        seq![
            abbreviated(ship.name@, 8) + " "@ + abbreviated(loc, 4) + "\u{2192}"@ + abbreviated(dest, 4),
            cash,
            tons,
        ]
    } else {
        let route = if width < 80 {
            abbreviated(loc, 6) + "\u{2192}"@ + abbreviated(dest, 6)
        } else {
            loc + " \u{2192} "@ + dest
        };
        seq![
            ship.name@,
            route,
            right_aligned(decimal(ship.eta.day as int), 3) + " / "@ + decimal(ship.eta.year as int),
            cash,
            tons,
        ]
    }
}

/// The name of system `id`, or `?`.
pub fn system_label_of(state: &GameState, id: usize) -> (r: String)
    ensures
        r@ == system_label(*state, id as int),
{
    if id < state.systems.len() {
        state.systems[id].name.clone()
    } else {
        text("?")
    }
}

/// A count written right-aligned in `width` columns, as `{:>width}` does.
pub fn right_aligned_count(n: usize, width: usize) -> (r: String)
    ensures
        r@ == right_aligned(decimal(n as int), width as int),
{
    let mut digits = String::new();
    push_count(&mut digits, n);
    let len = digits.unicode_len();
    let mut out = String::new();
    let mut k: usize = len;
    while k < width
        invariant
            len <= k <= (if len < width { width } else { len }),
            len == digits@.len(),
            out@ == Seq::new((k - len) as nat, |_i: int| ' '),
        decreases width - k,
    {
        proof {
            reveal_strlit(" ");
        }
        out.append(" ");
        k = k + 1;
        assert(out@ =~= Seq::new((k - len) as nat, |_i: int| ' '));
    }
    out.append(digits.as_str());
    proof {
        if len < width {
            assert(out@ =~= right_aligned(decimal(n as int), width as int));
        } else {
            assert(out@ =~= right_aligned(decimal(n as int), width as int));
        }
    }
    out
}

/// The cells of the row for ship `i` (see `ship_row`).
pub fn ship_row_cells(state: &GameState, i: usize, width: u16) -> (r: Vec<String>)
    requires
        i < state.ships@.len(),
    ensures
        cells_view(r@) == ship_row(*state, i as int, width as int),
{
    let ship = &state.ships[i];
    let loc = system_label_of(state, ship.location);
    let dest = system_label_of(state, ship.destination);
    let mut cash = text("$");
    push_decimal(&mut cash, ship.cash);
    let mut tons = String::new();
    push_decimal(&mut tons, ship.net_tonnage as i64);
    tons.append("t");
    let mut row: Vec<String> = Vec::new();
    if width < 60 {
        let mut first = abbrev(ship.name.as_str(), 8);
        first.append(" ");
        let l = abbrev(loc.as_str(), 4);
        first.append(l.as_str());
        first.append("\u{2192}");
        let d = abbrev(dest.as_str(), 4);
        first.append(d.as_str());
        row.push(first);
        row.push(cash);
        row.push(tons);
    } else {
        let route = if width < 80 {
            let mut route = abbrev(loc.as_str(), 6);
            route.append("\u{2192}");
            let d = abbrev(dest.as_str(), 6);
            route.append(d.as_str());
            route
        } else {
            let mut route = loc.clone();
            route.append(" \u{2192} ");
            route.append(dest.as_str());
            route
        };
        let mut eta = right_aligned_count(ship.eta.day as usize, 3);
        eta.append(" / ");
        push_decimal(&mut eta, ship.eta.year as i64);
        row.push(ship.name.clone());
        row.push(route);
        row.push(eta);
        row.push(cash);
        row.push(tons);
    }
    assert(cells_view(row@) =~= ship_row(*state, i as int, width as int));
    row
}

/// The rows of the ships table at `width` columns, one per ship, in order.
pub fn ship_rows(state: &GameState, width: u16) -> (r: Vec<Vec<String>>)
    ensures
        r@.len() == state.ships@.len(),
        forall|i: int|
            0 <= i < r@.len() ==> cells_view(#[trigger] r@[i]@) == ship_row(*state, i, width as int),
{
    let mut rows: Vec<Vec<String>> = Vec::new();
    let mut i: usize = 0;
    while i < state.ships.len()
        invariant
            i <= state.ships@.len(),
            rows@.len() == i,
            forall|j: int| 0 <= j < i ==> cells_view(#[trigger] rows@[j]@) == ship_row(*state, j, width as int),
        decreases state.ships@.len() - i,
    {
        let row = ship_row_cells(state, i, width);
        rows.push(row);
        i = i + 1;
    }
    rows
}


/// How a piece of panel text is shown: a label, plain text between pieces,
/// a value, or a key to press.
#[derive(Debug, Clone, Copy, PartialEq, Eq, Structural)]
pub enum TextRole {
    Label,
    Plain,
    Value,
    Key,
}

/// The texts and roles of the pieces of a line.
pub open spec fn spans_view(line: Seq<(String, TextRole)>) -> Seq<(Seq<char>, TextRole)> {
    line.map_values(|p: (String, TextRole)| (p.0@, p.1))
}

/// The texts and roles of the pieces of each line.
pub open spec fn lines_view(lines: Seq<Vec<(String, TextRole)>>) -> Seq<Seq<(Seq<char>, TextRole)>> {
    lines.map_values(|l: Vec<(String, TextRole)>| spans_view(l@))
}

/// `CODE:qty` for the first `n` goods of a hold, separated by spaces.
pub open spec fn cargo_summary(cargo: Seq<i32>, n: int) -> Seq<char>
    decreases n,
{
    if n <= 0 {
        Seq::empty()
    } else if n == 1 {
        Merchandise::code_at(0) + ":"@ + decimal(cargo[0] as int)
    } else {
        cargo_summary(cargo, n - 1) + " "@ + Merchandise::code_at(n - 1) + ":"@ + decimal(cargo[n - 1] as int)
    }
}

/// The lines about the selected system: name, class, coordinates, last
/// market update, and the selected good's stock and price there.
pub open spec fn system_details(state: GameState) -> Seq<Seq<(Seq<char>, TextRole)>> {
    let sys = state.systems@[state.selected_system as int];
    let g = state.selected_good as int;
    seq![
        seq![("System"@, TextRole::Label), (": "@, TextRole::Plain), (sys.name@, TextRole::Value)],
        seq![("Class"@, TextRole::Label), (": "@, TextRole::Plain), (sys.class.label_text(), TextRole::Value)],
        seq![
            ("Coords"@, TextRole::Label),
            (": "@, TextRole::Plain),
            ("("@ + decimal(sys.coords.0 as int) + ", "@ + decimal(sys.coords.1 as int) + ")"@, TextRole::Value),
        ],
        seq![
            ("Last update"@, TextRole::Label),
            (": day "@, TextRole::Plain),
            (decimal(sys.last_update.day as int), TextRole::Value),
            (" / "@, TextRole::Plain),
            (decimal(sys.last_update.year as int), TextRole::Value),
        ],
        seq![
            (Merchandise::code_at(g), TextRole::Label),
            (" stock: "@, TextRole::Plain),
            (decimal(sys.stock@[g] as int), TextRole::Value),
            ("  price: $"@, TextRole::Plain),
            (decimal(sys.prices@[g] as int), TextRole::Value),
        ],
    ]
}

/// The lines about the selected ship: number and name, route, arrival
/// date, cash and tonnage, and its hold.
pub open spec fn ship_details(state: GameState) -> Seq<Seq<(Seq<char>, TextRole)>> {
    let ship = state.ships@[state.selected_ship as int];
    seq![
        seq![
            ("Ship"@, TextRole::Label),
            (" "@, TextRole::Plain),
            (decimal(state.selected_ship + 1), TextRole::Value),
            (": "@, TextRole::Plain),
            (ship.name@, TextRole::Value),
        ],
        seq![
            ("At"@, TextRole::Label),
            (" "@, TextRole::Plain),
            (system_label(state, ship.location as int), TextRole::Value),
            (" \u{2192} "@, TextRole::Plain),
            (system_label(state, ship.destination as int), TextRole::Value),
        ],
        seq![
            ("ETA"@, TextRole::Label),
            (" day "@, TextRole::Plain),
            (decimal(ship.eta.day as int), TextRole::Value),
            (" / "@, TextRole::Plain),
            (decimal(ship.eta.year as int), TextRole::Value),
        ],
        seq![
            ("Cash $"@, TextRole::Label),
            (" "@, TextRole::Plain),
            (decimal(ship.cash as int), TextRole::Value),
            ("  |  Cargo tons "@, TextRole::Plain),
            (decimal(ship.net_tonnage as int), TextRole::Value),
        ],
        seq![("Cargo"@, TextRole::Label), (": "@, TextRole::Plain), (cargo_summary(ship.cargo@, 6), TextRole::Value)],
    ]
}

/// The two lines that recall the map's keys.
pub open spec fn map_key_lines() -> Seq<Seq<(Seq<char>, TextRole)>> {
    seq![
        seq![
            ("Keys"@, TextRole::Label),
            (" "@, TextRole::Plain),
            ("arrows"@, TextRole::Key),
            (" move focus, "@, TextRole::Plain),
            ("Tab"@, TextRole::Key),
            (" ships, "@, TextRole::Plain),
            ("Enter"@, TextRole::Key),
            (" set course"@, TextRole::Plain),
        ],
        seq![
            ("   "@, TextRole::Plain),
            ("r"@, TextRole::Key),
            (" recenter, "@, TextRole::Plain),
            ("Esc"@, TextRole::Key),
            (" close"@, TextRole::Plain),
        ],
    ]
}

/// The map's details panel: the selected system's lines (when there is
/// one), a blank line, the selected ship's lines (when there is one), a
/// blank line, and the key lines.
pub open spec fn map_details_spec(state: GameState) -> Seq<Seq<(Seq<char>, TextRole)>> {
    let sys_part = if state.selected_system < state.systems@.len() {
        system_details(state)
    } else {
        Seq::empty()
    };
    let ship_part = if state.selected_ship < state.ships@.len() {
        ship_details(state)
    } else {
        Seq::empty()
    };
    sys_part + seq![Seq::empty()] + ship_part + seq![Seq::empty()] + map_key_lines()
}

/// A piece of text with its role.
fn piece(t: &str, role: TextRole) -> (r: (String, TextRole))
    ensures
        r.0@ == t@,
        r.1 == role,
{
    (text(t), role)
}

/// Appends a line to the panel.
fn push_line(lines: &mut Vec<Vec<(String, TextRole)>>, line: Vec<(String, TextRole)>)
    ensures
        lines_view(final(lines)@) == lines_view(old(lines)@).push(spans_view(line@)),
{
    lines.push(line);
    assert(lines_view(lines@) =~= lines_view(old(lines)@).push(spans_view(line@)));
}

/// The decimal form of `n`.
fn dec(n: i64) -> (r: String)
    ensures
        r@ == decimal(n as int),
{
    let mut s = String::new();
    push_decimal(&mut s, n);
    s
}

/// The hold of a ship as `CODE:qty` pairs.
fn cargo_summary_text(cargo: &[i32; 6]) -> (r: String)
    ensures
        r@ == cargo_summary(cargo@, 6),
{
    let mut out = String::new();
    let mut k: usize = 0;
    while k < GOODS_COUNT
        invariant
            k <= GOODS_COUNT,
            GOODS_COUNT == 6,
            cargo@.len() == 6,
            out@ == cargo_summary(cargo@, k as int),
        decreases GOODS_COUNT - k,
    {
        if k > 0 {
            out.append(" ");
        }
        let code = Merchandise::from_idx(k).code();
        out.append(code);
        out.append(":");
        push_decimal(&mut out, cargo[k] as i64);
        k = k + 1;
    }
    out
}

/// Appends the selected system's lines (see `system_details`).
fn push_system_details(lines: &mut Vec<Vec<(String, TextRole)>>, state: &GameState)
    requires
        state.selected_system < state.systems@.len(),
        state.selected_good < GOODS_COUNT,
    ensures
        lines_view(final(lines)@) == lines_view(old(lines)@) + system_details(*state),
{
    let sys = &state.systems[state.selected_system];
    let g = state.selected_good;
    let ghost start = lines_view(lines@);
    let l0 = vec![piece("System", TextRole::Label), piece(": ", TextRole::Plain), (sys.name.clone(), TextRole::Value)];
    assert(spans_view(l0@) =~= system_details(*state)[0]);
    push_line(lines, l0);
    let l1 = vec![piece("Class", TextRole::Label), piece(": ", TextRole::Plain), piece(sys.class.label(), TextRole::Value)];
    assert(spans_view(l1@) =~= system_details(*state)[1]);
    push_line(lines, l1);
    let mut coords = text("(");
    push_decimal(&mut coords, sys.coords.0 as i64);
    coords.append(", ");
    push_decimal(&mut coords, sys.coords.1 as i64);
    coords.append(")");
    let l2 = vec![piece("Coords", TextRole::Label), piece(": ", TextRole::Plain), (coords, TextRole::Value)];
    assert(spans_view(l2@) =~= system_details(*state)[2]);
    push_line(lines, l2);
    let l3 = vec![
            piece("Last update", TextRole::Label),
            piece(": day ", TextRole::Plain),
            (dec(sys.last_update.day as i64), TextRole::Value),
            piece(" / ", TextRole::Plain),
            (dec(sys.last_update.year as i64), TextRole::Value),
        ];
    assert(spans_view(l3@) =~= system_details(*state)[3]);
    push_line(lines, l3);
    let l4 = vec![
            piece(Merchandise::from_idx(g).code(), TextRole::Label),
            piece(" stock: ", TextRole::Plain),
            (dec(sys.stock[g] as i64), TextRole::Value),
            piece("  price: $", TextRole::Plain),
            (dec(sys.prices[g] as i64), TextRole::Value),
        ];
    assert(spans_view(l4@) =~= system_details(*state)[4]);
    push_line(lines, l4);
    proof {
        let d = system_details(*state);
        assert(d.len() == 5);
        assert(lines_view(lines@) == start.push(d[0]).push(d[1]).push(d[2]).push(d[3]).push(d[4]));
        assert(lines_view(lines@) =~= start + d);
    }
}

/// Appends the selected ship's lines (see `ship_details`).
fn push_ship_details(lines: &mut Vec<Vec<(String, TextRole)>>, state: &GameState)
    requires
        state.selected_ship < state.ships@.len(),
        state.selected_ship < usize::MAX,
    ensures
        lines_view(final(lines)@) == lines_view(old(lines)@) + ship_details(*state),
{
    let ship = &state.ships[state.selected_ship];
    let ghost start = lines_view(lines@);
    let mut number = String::new();
    push_count(&mut number, state.selected_ship + 1);
    let l0 = vec![
            piece("Ship", TextRole::Label),
            piece(" ", TextRole::Plain),
            (number, TextRole::Value),
            piece(": ", TextRole::Plain),
            (ship.name.clone(), TextRole::Value),
        ];
    assert(spans_view(l0@) =~= ship_details(*state)[0]);
    push_line(lines, l0);
    let l1 = vec![
            piece("At", TextRole::Label),
            piece(" ", TextRole::Plain),
            (system_label_of(state, ship.location), TextRole::Value),
            piece(" \u{2192} ", TextRole::Plain),
            (system_label_of(state, ship.destination), TextRole::Value),
        ];
    assert(spans_view(l1@) =~= ship_details(*state)[1]);
    push_line(lines, l1);
    let l2 = vec![
            piece("ETA", TextRole::Label),
            piece(" day ", TextRole::Plain),
            (dec(ship.eta.day as i64), TextRole::Value),
            piece(" / ", TextRole::Plain),
            (dec(ship.eta.year as i64), TextRole::Value),
        ];
    assert(spans_view(l2@) =~= ship_details(*state)[2]);
    push_line(lines, l2);
    let l3 = vec![
            piece("Cash $", TextRole::Label),
            piece(" ", TextRole::Plain),
            (dec(ship.cash), TextRole::Value),
            piece("  |  Cargo tons ", TextRole::Plain),
            (dec(ship.net_tonnage as i64), TextRole::Value),
        ];
    assert(spans_view(l3@) =~= ship_details(*state)[3]);
    push_line(lines, l3);
    let l4 = vec![piece("Cargo", TextRole::Label), piece(": ", TextRole::Plain), (cargo_summary_text(&ship.cargo), TextRole::Value)];
    assert(spans_view(l4@) =~= ship_details(*state)[4]);
    push_line(lines, l4);
    proof {
        let d = ship_details(*state);
        assert(d.len() == 5);
        assert(lines_view(lines@) == start.push(d[0]).push(d[1]).push(d[2]).push(d[3]).push(d[4]));
        assert(lines_view(lines@) =~= start + d);
    }
}

/// The lines of the map's details panel (see `map_details_spec`).
pub fn map_details(app: &App) -> (r: Vec<Vec<(String, TextRole)>>)
    requires
        app.state.selected_good < GOODS_COUNT,
    ensures
        lines_view(r@) == map_details_spec(app.state),
{
    let state = &app.state;
    let mut lines: Vec<Vec<(String, TextRole)>> = Vec::new();
    assert(lines_view(lines@) =~= Seq::empty());
    if state.selected_system < state.systems.len() {
        push_system_details(&mut lines, state);
    }
    let blank: Vec<(String, TextRole)> = Vec::new();
    assert(spans_view(blank@) =~= Seq::empty());
    push_line(&mut lines, blank);
    if state.selected_ship < state.ships.len() {
        push_ship_details(&mut lines, state);
    }
    let blank: Vec<(String, TextRole)> = Vec::new();
    assert(spans_view(blank@) =~= Seq::empty());
    push_line(&mut lines, blank);
    let ghost before_keys = lines_view(lines@);
    let k0 = vec![
            piece("Keys", TextRole::Label),
            piece(" ", TextRole::Plain),
            piece("arrows", TextRole::Key),
            piece(" move focus, ", TextRole::Plain),
            piece("Tab", TextRole::Key),
            piece(" ships, ", TextRole::Plain),
            piece("Enter", TextRole::Key),
            piece(" set course", TextRole::Plain),
        ];
    assert(spans_view(k0@) =~= map_key_lines()[0]);
    push_line(&mut lines, k0);
    let k1 = vec![
            piece("   ", TextRole::Plain),
            piece("r", TextRole::Key),
            piece(" recenter, ", TextRole::Plain),
            piece("Esc", TextRole::Key),
            piece(" close", TextRole::Plain),
        ];
    assert(spans_view(k1@) =~= map_key_lines()[1]);
    push_line(&mut lines, k1);
    assert(lines_view(lines@) =~= map_details_spec(*state));
    lines
}

} // verus!
