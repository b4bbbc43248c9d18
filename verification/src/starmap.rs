//! The star map's character grid, from map positions already placed on the
//! grid's cells: the 10-light-year grid lines, the systems, the selected
//! ship's destination, the ships' routes and the ships themselves.

use vstd::prelude::*;

use crate::chart::{line_cells, marked, plot_line, MapCell, MAP_COORD_LIMIT};
use crate::star::StarClass;
use crate::text::digit_char;
use crate::world::GameState;

verus! {

/// What a map cell's color stands for.
#[derive(Debug, Clone, Copy, PartialEq, Eq, Structural)]
pub enum MapTint {
    Grid,
    Selected,
    Class(StarClass),
    Destination,
    Route,
    Ship(usize),
}

/// A map cell.
pub type MapMark = MapCell<MapTint>;

/// The cells of a grid, row by row.
pub open spec fn grid_view(g: Seq<Vec<MapMark>>) -> Seq<Seq<MapMark>> {
    g.map_values(|row: Vec<MapMark>| row@)
}

/// A cell of the empty map: `+` where a grid column meets a grid row, `|`
/// on a grid column, `-` on a grid row, blank elsewhere.
pub open spec fn base_cell(on_column: bool, on_row: bool) -> MapMark {
    MapCell {
        ch: if on_column && on_row {
            '+'
        } else if on_column {
            '|'
        } else if on_row {
            '-'
        } else {
            ' '
        },
        color: if on_column || on_row {
            Some(MapTint::Grid)
        } else {
            None
        },
    }
}

/// The empty map of `h` rows of `w` cells with grid lines on columns
/// `grid_cols` and rows `grid_rows`.
pub open spec fn base_grid(w: int, h: int, grid_cols: Seq<usize>, grid_rows: Seq<usize>) -> Seq<Seq<MapMark>> {
    Seq::new(
        h as nat,
        |r: int| Seq::new(w as nat, |c: int| base_cell(grid_cols.contains(c as usize), grid_rows.contains(r as usize))),
    )
}

/// `g` with the cell at row `r`, column `c` replaced.
pub open spec fn put(g: Seq<Seq<MapMark>>, r: int, c: int, cell: MapMark) -> Seq<Seq<MapMark>> {
    g.update(r, g[r].update(c, cell))
}

/// How system `idx` shows: `X` in white when selected, else `O` in its
/// class's color.
pub open spec fn system_mark(state: GameState, idx: int) -> MapMark {
    if idx == state.selected_system {
        MapCell { ch: 'X', color: Some(MapTint::Selected) }
    } else {
        MapCell { ch: 'O', color: Some(MapTint::Class(state.systems@[idx].class)) }
    }
}

/// The map with the first `n` systems placed, a later system over an
/// earlier one on the same cell.
pub open spec fn with_systems(
    g: Seq<Seq<MapMark>>,
    state: GameState,
    cols: Seq<usize>,
    rows: Seq<usize>,
    n: int,
) -> Seq<Seq<MapMark>>
    decreases n,
{
    if n <= 0 {
        g
    } else {
        put(with_systems(g, state, cols, rows, n - 1), rows[n - 1] as int, cols[n - 1] as int, system_mark(state, n - 1))
    }
}

/// Whether a character is an ASCII letter.
pub open spec fn is_letter(ch: char) -> bool {
    ('a' <= ch && ch <= 'z') || ('A' <= ch && ch <= 'Z')
}

/// The map with the selected ship's destination marked `>`, unless a
/// letter already stands there (or there is no such ship or system).
pub open spec fn with_destination(g: Seq<Seq<MapMark>>, state: GameState, cols: Seq<usize>, rows: Seq<usize>) -> Seq<
    Seq<MapMark>,
> {
    if state.selected_ship < state.ships@.len() {
        let d = state.ships@[state.selected_ship as int].destination as int;
        if d < state.systems@.len() && !is_letter(g[rows[d] as int][cols[d] as int].ch) {
            put(g, rows[d] as int, cols[d] as int, MapCell { ch: '>', color: Some(MapTint::Destination) })
        } else {
            g
        }
    } else {
        g
    }
}

/// The map after a route is drawn from cell (`x0`, `y0`) to (`x1`, `y1`).
pub open spec fn with_route(g: Seq<Seq<MapMark>>, x0: int, y0: int, x1: int, y1: int) -> Seq<Seq<MapMark>> {
    Seq::new(
        g.len(),
        |r: int|
            Seq::new(
                g[r].len(),
                |c: int|
                    if line_cells(x0, y0, x1, y1).contains((c, r)) {
                        marked(g[r][c], '.', Some(MapTint::Route))
                    } else {
                        g[r][c]
                    },
            ),
    )
}

/// The map with the routes of the first `n` ships drawn in dots, from
/// where each ship is to where it goes (ships at or bound for an unknown
/// system are skipped).
pub open spec fn with_routes(
    g: Seq<Seq<MapMark>>,
    state: GameState,
    cols: Seq<usize>,
    rows: Seq<usize>,
    n: int,
) -> Seq<Seq<MapMark>>
    decreases n,
{
    if n <= 0 {
        g
    } else {
        let prev = with_routes(g, state, cols, rows, n - 1);
        let ship = state.ships@[n - 1];
        let o = ship.location as int;
        let d = ship.destination as int;
        if o < state.systems@.len() && d < state.systems@.len() {
            with_route(prev, cols[o] as int, rows[o] as int, cols[d] as int, rows[d] as int)
        } else {
            prev
        }
    }
}

/// The digit that marks ship `idx` (its number, `*` from the tenth on).
pub open spec fn ship_digit(idx: int) -> char {
    if 0 <= idx < 9 {
        digit_char(idx + 1)
    } else {
        '*'
    }
}

/// A cell after ship `idx` is placed on it: `@` over a system, the ship's
/// digit over anything but a letter, in the ship's color.
pub open spec fn ship_over(cell: MapMark, idx: int) -> MapMark {
    if cell.ch == 'O' || cell.ch == 'X' {
        MapCell { ch: '@', color: Some(MapTint::Ship(idx as usize)) }
    } else if !is_letter(cell.ch) {
        MapCell { ch: ship_digit(idx), color: Some(MapTint::Ship(idx as usize)) }
    } else {
        cell
    }
}

/// The map with the first `n` ships placed where they are.
pub open spec fn with_ships(
    g: Seq<Seq<MapMark>>,
    state: GameState,
    cols: Seq<usize>,
    rows: Seq<usize>,
    n: int,
) -> Seq<Seq<MapMark>>
    decreases n,
{
    if n <= 0 {
        g
    } else {
        let prev = with_ships(g, state, cols, rows, n - 1);
        let o = state.ships@[n - 1].location as int;
        if o < state.systems@.len() {
            put(prev, rows[o] as int, cols[o] as int, ship_over(prev[rows[o] as int][cols[o] as int], n - 1))
        } else {
            prev
        }
    }
}

/// The whole map: grid lines, systems, the destination marker, routes and
/// ships, each drawn over the last.
pub open spec fn star_map(
    state: GameState,
    cols: Seq<usize>,
    rows: Seq<usize>,
    w: int,
    h: int,
    grid_cols: Seq<usize>,
    grid_rows: Seq<usize>,
) -> Seq<Seq<MapMark>> {
    let n_sys = state.systems@.len() as int;
    let n_ships = state.ships@.len() as int;
    let placed = with_systems(base_grid(w, h, grid_cols, grid_rows), state, cols, rows, n_sys);
    let routed = with_routes(with_destination(placed, state, cols, rows), state, cols, rows, n_ships);
    with_ships(routed, state, cols, rows, n_ships)
}

/// Whether `x` is one of `v`'s entries.
fn listed(v: &Vec<usize>, x: usize) -> (r: bool)
    ensures
        r == v@.contains(x),
{
    let mut i: usize = 0;
    while i < v.len()
        invariant
            i <= v@.len(),
            forall|j: int| 0 <= j < i ==> v@[j] != x,
        decreases v@.len() - i,
    {
        if v[i] == x {
            assert(v@[i as int] == x);
            return true;
        }
        i = i + 1;
    }
    false
}

/// The empty map (see `base_grid`).
fn empty_map(w: usize, h: usize, grid_cols: &Vec<usize>, grid_rows: &Vec<usize>) -> (g: Vec<Vec<MapMark>>)
    ensures
        grid_view(g@) == base_grid(w as int, h as int, grid_cols@, grid_rows@),
{
    let mut g: Vec<Vec<MapMark>> = Vec::new();
    let mut r: usize = 0;
    while r < h
        invariant
            r <= h,
            g@.len() == r,
            forall|k: int| 0 <= k < r ==> (#[trigger] g@[k])@ == base_grid(w as int, h as int, grid_cols@, grid_rows@)[k],
        decreases h - r,
    {
        let on_row = listed(grid_rows, r);
        let mut row: Vec<MapMark> = Vec::new();
        let mut c: usize = 0;
        while c < w
            invariant
                c <= w,
                r < h,
                on_row == grid_rows@.contains(r),
                row@.len() == c,
                forall|k: int| 0 <= k < c ==> #[trigger] row@[k] == base_cell(grid_cols@.contains(k as usize), on_row),
            decreases w - c,
        {
            let on_column = listed(grid_cols, c);
            let ch = if on_column && on_row {
                '+'
            } else if on_column {
                '|'
            } else if on_row {
                '-'
            } else {
                ' '
            };
            let color = if on_column || on_row {
                Some(MapTint::Grid)
            } else {
                None
            };
            row.push(MapCell { ch, color });
            c = c + 1;
        }
        assert(row@ =~= base_grid(w as int, h as int, grid_cols@, grid_rows@)[r as int]);
        g.push(row);
        r = r + 1;
    }
    assert(grid_view(g@) =~= base_grid(w as int, h as int, grid_cols@, grid_rows@));
    g
}

/// Whether all rows of a grid have `w` cells and there are `h` of them.
pub open spec fn shaped(g: Seq<Seq<MapMark>>, w: int, h: int) -> bool {
    &&& g.len() == h
    &&& forall|r: int| 0 <= r < h ==> (#[trigger] g[r]).len() == w
}

/// Replaces one cell of the grid.
fn put_cell(g: &mut Vec<Vec<MapMark>>, r: usize, c: usize, cell: MapMark)
    requires
        r < old(g)@.len(),
        c < old(g)@[r as int]@.len(),
    ensures
        grid_view(final(g)@) == put(grid_view(old(g)@), r as int, c as int, cell),
{
    g[r][c] = cell;
    assert(grid_view(g@) =~= put(grid_view(old(g)@), r as int, c as int, cell));
}

/// Whether a character is an ASCII letter.
fn letter(ch: char) -> (r: bool)
    ensures
        r == is_letter(ch),
{
    ('a' <= ch && ch <= 'z') || ('A' <= ch && ch <= 'Z')
}

/// The digit that marks ship `idx` (see `ship_digit`).
fn ship_digit_of(idx: usize) -> (r: char)
    ensures
        r == ship_digit(idx as int),
{
    match idx {
        0 => '1',
        1 => '2',
        2 => '3',
        3 => '4',
        4 => '5',
        5 => '6',
        6 => '7',
        7 => '8',
        8 => '9',
        _ => '*',
    }
}

/// Places the systems (see `with_systems`).
fn place_systems(g: &mut Vec<Vec<MapMark>>, state: &GameState, cols: &Vec<usize>, rows: &Vec<usize>, w: usize, h: usize)
    requires
        shaped(grid_view(old(g)@), w as int, h as int),
        cols@.len() == state.systems@.len(),
        rows@.len() == state.systems@.len(),
        forall|i: int| 0 <= i < cols@.len() ==> #[trigger] cols@[i] < w,
        forall|i: int| 0 <= i < rows@.len() ==> #[trigger] rows@[i] < h,
    ensures
        grid_view(final(g)@) == with_systems(grid_view(old(g)@), *state, cols@, rows@, state.systems@.len() as int),
        shaped(grid_view(final(g)@), w as int, h as int),
{
    let ghost start = grid_view(g@);
    let mut i: usize = 0;
    while i < state.systems.len()
        invariant
            i <= state.systems@.len(),
            cols@.len() == state.systems@.len(),
            rows@.len() == state.systems@.len(),
            forall|k: int| 0 <= k < cols@.len() ==> #[trigger] cols@[k] < w,
            forall|k: int| 0 <= k < rows@.len() ==> #[trigger] rows@[k] < h,
            shaped(grid_view(g@), w as int, h as int),
            grid_view(g@) == with_systems(start, *state, cols@, rows@, i as int),
        decreases state.systems@.len() - i,
    {
        let mark = if i == state.selected_system {
            MapCell { ch: 'X', color: Some(MapTint::Selected) }
        } else {
            MapCell { ch: 'O', color: Some(MapTint::Class(state.systems[i].class)) }
        };
        let r = rows[i];
        let c = cols[i];
        assert(grid_view(g@)[r as int].len() == w);
        put_cell(g, r, c, mark);
        i = i + 1;
    }
}

/// Marks the selected ship's destination (see `with_destination`).
fn mark_destination(g: &mut Vec<Vec<MapMark>>, state: &GameState, cols: &Vec<usize>, rows: &Vec<usize>, w: usize, h: usize)
    requires
        shaped(grid_view(old(g)@), w as int, h as int),
        cols@.len() == state.systems@.len(),
        rows@.len() == state.systems@.len(),
        forall|i: int| 0 <= i < cols@.len() ==> #[trigger] cols@[i] < w,
        forall|i: int| 0 <= i < rows@.len() ==> #[trigger] rows@[i] < h,
    ensures
        grid_view(final(g)@) == with_destination(grid_view(old(g)@), *state, cols@, rows@),
        shaped(grid_view(final(g)@), w as int, h as int),
{
    if state.selected_ship < state.ships.len() {
        let d = state.ships[state.selected_ship].destination;
        if d < state.systems.len() {
            let r = rows[d];
            let c = cols[d];
            assert(grid_view(g@)[r as int].len() == w);
            if !letter(g[r][c].ch) {
                put_cell(g, r, c, MapCell { ch: '>', color: Some(MapTint::Destination) });
            }
        }
    }
}

/// Draws the ships' routes (see `with_routes`).
fn draw_routes(g: &mut Vec<Vec<MapMark>>, state: &GameState, cols: &Vec<usize>, rows: &Vec<usize>, w: usize, h: usize)
    requires
        shaped(grid_view(old(g)@), w as int, h as int),
        w <= MAP_COORD_LIMIT,
        h <= MAP_COORD_LIMIT,
        cols@.len() == state.systems@.len(),
        rows@.len() == state.systems@.len(),
        forall|i: int| 0 <= i < cols@.len() ==> #[trigger] cols@[i] < w,
        forall|i: int| 0 <= i < rows@.len() ==> #[trigger] rows@[i] < h,
    ensures
        grid_view(final(g)@) == with_routes(grid_view(old(g)@), *state, cols@, rows@, state.ships@.len() as int),
        shaped(grid_view(final(g)@), w as int, h as int),
{
    let ghost start = grid_view(g@);
    let mut i: usize = 0;
    while i < state.ships.len()
        invariant
            i <= state.ships@.len(),
            w <= MAP_COORD_LIMIT,
            h <= MAP_COORD_LIMIT,
            cols@.len() == state.systems@.len(),
            rows@.len() == state.systems@.len(),
            forall|k: int| 0 <= k < cols@.len() ==> #[trigger] cols@[k] < w,
            forall|k: int| 0 <= k < rows@.len() ==> #[trigger] rows@[k] < h,
            shaped(grid_view(g@), w as int, h as int),
            grid_view(g@) == with_routes(start, *state, cols@, rows@, i as int),
        decreases state.ships@.len() - i,
    {
        let o = state.ships[i].location;
        let d = state.ships[i].destination;
        if o < state.systems.len() && d < state.systems.len() {
            let x0 = cols[o] as i32;
            let y0 = rows[o] as i32;
            let x1 = cols[d] as i32;
            let y1 = rows[d] as i32;
            let ghost before = grid_view(g@);
            plot_line(g, x0, y0, x1, y1, '.', Some(MapTint::Route));
            proof {
                let want = with_route(before, x0 as int, y0 as int, x1 as int, y1 as int);
                assert forall|r: int| 0 <= r < h implies #[trigger] grid_view(g@)[r] =~= want[r] by {
                    assert forall|c: int| 0 <= c < w implies grid_view(g@)[r][c] == want[r][c] by {
                        assert(g@[r]@[c] == grid_view(g@)[r][c]);
                    }
                }
                assert(grid_view(g@) =~= want);
            }
        }
        i = i + 1;
    }
}

/// Places the ships (see `with_ships`).
fn place_ships(g: &mut Vec<Vec<MapMark>>, state: &GameState, cols: &Vec<usize>, rows: &Vec<usize>, w: usize, h: usize)
    requires
        shaped(grid_view(old(g)@), w as int, h as int),
        cols@.len() == state.systems@.len(),
        rows@.len() == state.systems@.len(),
        forall|i: int| 0 <= i < cols@.len() ==> #[trigger] cols@[i] < w,
        forall|i: int| 0 <= i < rows@.len() ==> #[trigger] rows@[i] < h,
    ensures
        grid_view(final(g)@) == with_ships(grid_view(old(g)@), *state, cols@, rows@, state.ships@.len() as int),
        shaped(grid_view(final(g)@), w as int, h as int),
{
    let ghost start = grid_view(g@);
    let mut i: usize = 0;
    while i < state.ships.len()
        invariant
            i <= state.ships@.len(),
            cols@.len() == state.systems@.len(),
            rows@.len() == state.systems@.len(),
            forall|k: int| 0 <= k < cols@.len() ==> #[trigger] cols@[k] < w,
            forall|k: int| 0 <= k < rows@.len() ==> #[trigger] rows@[k] < h,
            shaped(grid_view(g@), w as int, h as int),
            grid_view(g@) == with_ships(start, *state, cols@, rows@, i as int),
        decreases state.ships@.len() - i,
    {
        let o = state.ships[i].location;
        if o < state.systems.len() {
            let r = rows[o];
            let c = cols[o];
            assert(grid_view(g@)[r as int].len() == w);
            let cell = g[r][c];
            let mark = if cell.ch == 'O' || cell.ch == 'X' {
                MapCell { ch: '@', color: Some(MapTint::Ship(i)) }
            } else if !letter(cell.ch) {
                MapCell { ch: ship_digit_of(i), color: Some(MapTint::Ship(i)) }
            } else {
                cell
            };
            put_cell(g, r, c, mark);
        }
        i = i + 1;
    }
}

/// The star map's grid of `h` rows of `w` cells (see `star_map`), given
/// the cell of each system (`cols[i]`, `rows[i]`) and the columns and rows
/// of the grid lines.
pub fn map_grid(
    state: &GameState,
    cols: &Vec<usize>,
    rows: &Vec<usize>,
    w: usize,
    h: usize,
    grid_cols: &Vec<usize>,
    grid_rows: &Vec<usize>,
) -> (r: Vec<Vec<MapMark>>)
    requires
        w <= MAP_COORD_LIMIT,
        h <= MAP_COORD_LIMIT,
        cols@.len() == state.systems@.len(),
        rows@.len() == state.systems@.len(),
        forall|i: int| 0 <= i < cols@.len() ==> #[trigger] cols@[i] < w,
        forall|i: int| 0 <= i < rows@.len() ==> #[trigger] rows@[i] < h,
    ensures
        grid_view(r@) == star_map(*state, cols@, rows@, w as int, h as int, grid_cols@, grid_rows@),
{
    let mut g = empty_map(w, h, grid_cols, grid_rows);
    place_systems(&mut g, state, cols, rows, w, h);
    mark_destination(&mut g, state, cols, rows, w, h);
    draw_routes(&mut g, state, cols, rows, w, h);
    place_ships(&mut g, state, cols, rows, w, h);
    g
}

} // verus!
