//! Route lines on the star map: cells of a character grid along the
//! straight line between two map positions.

use vstd::prelude::*;

verus! {

/// Largest magnitude of a map position that a line may join.
pub const MAP_COORD_LIMIT: i32 = 268435456;

/// A cell of the star map: the character shown and its color, if any.
#[derive(Debug, Clone, Copy)]
pub struct MapCell<C> {
    pub ch: char,
    pub color: Option<C>,
}

/// The position `k` steps from `from` in the direction of `to`.
pub open spec fn toward(from: int, to: int, k: int) -> int {
    if from < to {
        from + k
    } else {
        from - k
    }
}

/// The distance between two positions along one axis.
pub open spec fn span(from: int, to: int) -> int {
    if from < to {
        to - from
    } else {
        from - to
    }
}

/// The error term of the line walk after `i` steps across and `j` steps
/// along, for a line spanning `a` columns and `b` rows.
pub open spec fn walk_error(a: int, b: int, i: int, j: int) -> int {
    a * (1 + j) - b * (1 + i)
}

/// Whether the walk steps across (in x) from step counts `i`, `j`.
pub open spec fn steps_across(a: int, b: int, i: int, j: int) -> bool {
    2 * walk_error(a, b, i, j) >= -b
}

/// Whether the walk steps along (in y) from step counts `i`, `j`.
pub open spec fn steps_along(a: int, b: int, i: int, j: int) -> bool {
    2 * walk_error(a, b, i, j) <= a
}

/// The cells that the walk from (`x0`, `y0`) to (`x1`, `y1`) passes
/// through from step counts `i`, `j` on, before it reaches (`x1`, `y1`),
/// taking at most `fuel` steps: at each step the walk moves across, along,
/// or both, as the error term of the line decides.
pub open spec fn walk_cells(x0: int, y0: int, x1: int, y1: int, i: int, j: int, fuel: nat) -> Seq<(int, int)>
    decreases fuel,
{
    let a = span(x0, x1);
    let b = span(y0, y1);
    if fuel == 0 || (i == a && j == b) {
        Seq::empty()
    } else {
        let ni = if steps_across(a, b, i, j) { i + 1 } else { i };
        let nj = if steps_along(a, b, i, j) { j + 1 } else { j };
        seq![(toward(x0, x1, i), toward(y0, y1, j))] + walk_cells(x0, y0, x1, y1, ni, nj, (fuel - 1) as nat)
    }
}

/// The cells of the line from (`x0`, `y0`) to (`x1`, `y1`), in order,
/// without the end cell (x, y).
pub open spec fn line_cells(x0: int, y0: int, x1: int, y1: int) -> Seq<(int, int)> {
    let a = span(x0, x1);
    let b = span(y0, y1);
    walk_cells(x0, y0, x1, y1, 0, 0, (a + b) as nat)
}

/// A cell after a route passes: a blank or dotted cell takes the route's
/// character, and its color when it has one; other cells stay.
pub open spec fn marked<C>(cell: MapCell<C>, ch: char, color: Option<C>) -> MapCell<C> {
    if cell.ch == ' ' || cell.ch == '.' {
        MapCell {
            ch,
            color: match color {
                Some(c) => Some(c),
                None => cell.color,
            },
        }
    } else {
        cell
    }
}

/// One step of the walk stays within the line's box and makes progress.
proof fn lemma_walk_step(a: int, b: int, i: int, j: int)
    requires
        0 <= i <= a,
        0 <= j <= b,
        !(i == a && j == b),
    ensures
        ({
            let ni = if steps_across(a, b, i, j) { i + 1 } else { i };
            let nj = if steps_along(a, b, i, j) { j + 1 } else { j };
            &&& 0 <= ni <= a
            &&& 0 <= nj <= b
            &&& ni + nj >= i + j + 1
        }),
{
    if i == a {
        assert(a * (1 + j) <= a * b) by (nonlinear_arith)
            requires
                0 <= a,
                1 + j <= b,
        ;
        assert(b * (1 + i) == b + b * a) by (nonlinear_arith)
            requires
                i == a,
        ;
        assert(a * b == b * a) by (nonlinear_arith);
    }
    if j == b {
        assert(b * (1 + i) <= b * a) by (nonlinear_arith)
            requires
                0 <= b,
                1 + i <= a,
        ;
        assert(a * (1 + j) == a + a * b) by (nonlinear_arith)
            requires
                j == b,
        ;
        assert(a * b == b * a) by (nonlinear_arith);
    }
}

/// The walk's cells do not depend on the fuel, as long as there is enough
/// for every remaining step.
proof fn lemma_walk_fuel(x0: int, y0: int, x1: int, y1: int, i: int, j: int, f: nat)
    requires
        0 <= i <= span(x0, x1),
        0 <= j <= span(y0, y1),
        f >= span(x0, x1) - i + span(y0, y1) - j,
    ensures
        walk_cells(x0, y0, x1, y1, i, j, f) == walk_cells(
            x0,
            y0,
            x1,
            y1,
            i,
            j,
            (span(x0, x1) - i + span(y0, y1) - j) as nat,
        ),
    decreases f,
{
    let a = span(x0, x1);
    let b = span(y0, y1);
    let g = (a - i + b - j) as nat;
    if !(i == a && j == b) {
        lemma_walk_step(a, b, i, j);
        let ni = if steps_across(a, b, i, j) { i + 1 } else { i };
        let nj = if steps_along(a, b, i, j) { j + 1 } else { j };
        lemma_walk_fuel(x0, y0, x1, y1, ni, nj, (f - 1) as nat);
        lemma_walk_fuel(x0, y0, x1, y1, ni, nj, (g - 1) as nat);
    }
}

/// Two cells are one step apart: different, and at most one column and
/// one row from each other.
pub open spec fn one_step(p: (int, int), q: (int, int)) -> bool {
    &&& p != q
    &&& -1 <= p.0 - q.0 <= 1
    &&& -1 <= p.1 - q.1 <= 1
}

/// The walk's deviation from the ideal line stays within half the longer
/// side, and so a step keeps it there.
proof fn lemma_walk_deviation(a: int, b: int, i: int, j: int)
    requires
        0 <= a,
        0 <= b,
        0 <= i <= a,
        0 <= j <= b,
        !(i == a && j == b),
        -(if a < b { b } else { a }) <= 2 * (b * i - a * j) <= (if a < b { b } else { a }),
    ensures
        ({
            let ni = if steps_across(a, b, i, j) { i + 1 } else { i };
            let nj = if steps_along(a, b, i, j) { j + 1 } else { j };
            &&& -(if a < b { b } else { a }) <= 2 * (b * ni - a * nj) <= (if a < b { b } else { a })
            &&& (a >= b ==> ni == i + 1)
            &&& (a < b ==> nj == j + 1)
        }),
{
    assert(a * (1 + j) == a + a * j) by (nonlinear_arith);
    assert(b * (1 + i) == b + b * i) by (nonlinear_arith);
    assert(b * (i + 1) == b * i + b) by (nonlinear_arith);
    assert(a * (j + 1) == a * j + a) by (nonlinear_arith);
}

/// The shape of the walk from step counts `i`, `j` on: it has one cell per
/// remaining column or row of the longer side, starts at the current cell,
/// moves one step at a time, and its next step after the last cell is the
/// end of the line.
proof fn lemma_walk_shape(x0: int, y0: int, x1: int, y1: int, i: int, j: int)
    requires
        0 <= i <= span(x0, x1),
        0 <= j <= span(y0, y1),
        ({
            let a = span(x0, x1);
            let b = span(y0, y1);
            -(if a < b { b } else { a }) <= 2 * (b * i - a * j) <= (if a < b { b } else { a })
        }),
    ensures
        ({
            let a = span(x0, x1);
            let b = span(y0, y1);
            let q = walk_cells(x0, y0, x1, y1, i, j, (a - i + b - j) as nat);
            &&& q.len() == (if a >= b { a - i } else { b - j })
            &&& q.len() > 0 ==> q[0] == (toward(x0, x1, i), toward(y0, y1, j))
            &&& forall|k: int| 0 <= k < q.len() - 1 ==> one_step(#[trigger] q[k], q[k + 1])
            &&& q.len() > 0 ==> one_step(q.last(), (x1, y1))
        }),
    decreases span(x0, x1) - i + span(y0, y1) - j,
{
    let a = span(x0, x1);
    let b = span(y0, y1);
    let f = (a - i + b - j) as nat;
    let q = walk_cells(x0, y0, x1, y1, i, j, f);
    if i == a && j == b {
        assert(q.len() == 0);
        if a >= b {
            assert(a * j == a * b);
        }
    } else {
        if a >= b && i == a {
            assert(2 * (b * a - a * j) == 2 * a * (b - j)) by (nonlinear_arith);
            assert(2 * a * (b - j) >= 2 * a) by (nonlinear_arith)
                requires
                    b - j >= 1,
                    a >= 0,
            ;
        }
        if a < b && j == b {
            assert(2 * (b * i - a * b) == 2 * b * (i - a)) by (nonlinear_arith);
            assert(2 * b * (i - a) <= -2 * b) by (nonlinear_arith)
                requires
                    i - a <= -1,
                    b >= 0,
            ;
        }
        lemma_walk_step(a, b, i, j);
        lemma_walk_deviation(a, b, i, j);
        let ni = if steps_across(a, b, i, j) { i + 1 } else { i };
        let nj = if steps_along(a, b, i, j) { j + 1 } else { j };
        let h = (toward(x0, x1, i), toward(y0, y1, j));
        let r = walk_cells(x0, y0, x1, y1, ni, nj, (f - 1) as nat);
        lemma_walk_fuel(x0, y0, x1, y1, ni, nj, (f - 1) as nat);
        lemma_walk_shape(x0, y0, x1, y1, ni, nj);
        assert(q == seq![h] + r);
        if r.len() > 0 {
            assert(one_step(h, r[0]));
            assert forall|k: int| 0 <= k < q.len() - 1 implies one_step(#[trigger] q[k], q[k + 1]) by {
                if k > 0 {
                    assert(q[k] == r[k - 1]);
                    assert(q[k + 1] == r[k]);
                }
            }
            assert(q.last() == r.last());
        } else {
            assert(ni == a && nj == b);
            assert(q.last() == h);
        }
    }
}

/// A route line starts where the route sets out (unless it ends there too),
/// has one cell per column or row of its longer side, moves one step at a
/// time (across, along or diagonally), and one more step from its last cell
/// reaches the route's end.
pub proof fn law_route_line_steps(x0: int, y0: int, x1: int, y1: int)
    ensures
        ({
            let p = line_cells(x0, y0, x1, y1);
            let a = span(x0, x1);
            let b = span(y0, y1);
            &&& p.len() == (if a >= b { a } else { b })
            &&& p.len() > 0 ==> p[0] == (x0, y0)
            &&& forall|k: int| 0 <= k < p.len() - 1 ==> one_step(#[trigger] p[k], p[k + 1])
            &&& p.len() > 0 ==> one_step(p.last(), (x1, y1))
        }),
{
    lemma_walk_shape(x0, y0, x1, y1, 0, 0);
}

/// Marks the cells of `grid` (rows indexed by y, columns by x) along the
/// line from (`x0`, `y0`) to (`x1`, `y1`), the end cell excepted: each such
/// cell inside the grid that is blank or dotted shows `ch`, in `color` when
/// one is given. Cells outside the grid are skipped.
pub fn plot_line<C: Copy>(
    grid: &mut Vec<Vec<MapCell<C>>>,
    x0: i32,
    y0: i32,
    x1: i32,
    y1: i32,
    ch: char,
    color: Option<C>,
)
    requires
        -MAP_COORD_LIMIT <= x0 <= MAP_COORD_LIMIT,
        -MAP_COORD_LIMIT <= y0 <= MAP_COORD_LIMIT,
        -MAP_COORD_LIMIT <= x1 <= MAP_COORD_LIMIT,
        -MAP_COORD_LIMIT <= y1 <= MAP_COORD_LIMIT,
    ensures
        final(grid)@.len() == old(grid)@.len(),
        forall|r: int| 0 <= r < old(grid)@.len() ==> (#[trigger] final(grid)@[r])@.len() == old(grid)@[r]@.len(),
        forall|r: int, c: int|
            0 <= r < old(grid)@.len() && 0 <= c < old(grid)@[r]@.len() ==> #[trigger] final(grid)@[r]@[c] == (
            if line_cells(x0 as int, y0 as int, x1 as int, y1 as int).contains((c, r)) {
                marked(old(grid)@[r]@[c], ch, color)
            } else {
                old(grid)@[r]@[c]
            }),
{
    let dx: i32 = if x0 < x1 { x1 - x0 } else { x0 - x1 };
    let sx: i32 = if x0 < x1 { 1 } else { -1 };
    let dy: i32 = if y0 < y1 { y0 - y1 } else { y1 - y0 };
    let sy: i32 = if y0 < y1 { 1 } else { -1 };
    let mut err: i32 = dx + dy;
    let mut x: i32 = x0;
    let mut y: i32 = y0;
    let ghost a: int = dx as int;
    let ghost b: int = -dy;
    let ghost mut i: int = 0;
    let ghost mut j: int = 0;
    let ghost path = line_cells(x0 as int, y0 as int, x1 as int, y1 as int);
    let ghost mut done: Seq<(int, int)> = Seq::empty();
    let ghost start = *grid;
    proof {
        lemma_walk_fuel(x0 as int, y0 as int, x1 as int, y1 as int, 0, 0, (a + b) as nat);
        assert(done + walk_cells(x0 as int, y0 as int, x1 as int, y1 as int, 0, 0, (a + b) as nat) =~= path);
    }
    loop
        invariant
            a == span(x0 as int, x1 as int),
            b == span(y0 as int, y1 as int),
            dx == a,
            dy == -b,
            sx == (if x0 < x1 { 1i32 } else { -1i32 }),
            sy == (if y0 < y1 { 1i32 } else { -1i32 }),
            -MAP_COORD_LIMIT <= x0 <= MAP_COORD_LIMIT,
            -MAP_COORD_LIMIT <= y0 <= MAP_COORD_LIMIT,
            -MAP_COORD_LIMIT <= x1 <= MAP_COORD_LIMIT,
            -MAP_COORD_LIMIT <= y1 <= MAP_COORD_LIMIT,
            0 <= i <= a,
            0 <= j <= b,
            x == toward(x0 as int, x1 as int, i),
            y == toward(y0 as int, y1 as int, j),
            err == a - b - (b * i - a * j),
            -(if a < b { b } else { a }) <= 2 * (b * i - a * j) <= (if a < b { b } else { a }),
            path == line_cells(x0 as int, y0 as int, x1 as int, y1 as int),
            path == done + walk_cells(x0 as int, y0 as int, x1 as int, y1 as int, i, j, (a - i + b - j) as nat),
            grid@.len() == start@.len(),
            forall|r: int| 0 <= r < start@.len() ==> (#[trigger] grid@[r])@.len() == start@[r]@.len(),
            forall|r: int, c: int|
                0 <= r < start@.len() && 0 <= c < start@[r]@.len() ==> #[trigger] grid@[r]@[c] == (
                if done.contains((c, r)) {
                    marked(start@[r]@[c], ch, color)
                } else {
                    start@[r]@[c]
                }),
        ensures
            i == a && j == b,
            path == done,
            grid@.len() == start@.len(),
            forall|r: int| 0 <= r < start@.len() ==> (#[trigger] grid@[r])@.len() == start@[r]@.len(),
            forall|r: int, c: int|
                0 <= r < start@.len() && 0 <= c < start@[r]@.len() ==> #[trigger] grid@[r]@[c] == (
                if done.contains((c, r)) {
                    marked(start@[r]@[c], ch, color)
                } else {
                    start@[r]@[c]
                }),
        decreases a - i + b - j,
    {
        if x == x1 && y == y1 {
            proof {
                assert(i == a && j == b);
                assert(done + Seq::<(int, int)>::empty() =~= done);
            }
            break;
        }
        let ghost here: (int, int) = (x as int, y as int);
        proof {
            assert(!(i == a && j == b));
            lemma_walk_step(a, b, i, j);
            assert(a * (1 + j) == a + a * j) by (nonlinear_arith);
            assert(b * (1 + i) == b + b * i) by (nonlinear_arith);
            assert(walk_error(a, b, i, j) == err);
        }
        if y >= 0 && (y as usize) < grid.len() && x >= 0 && (x as usize) < grid[y as usize].len() {
            let yu = y as usize;
            let xu = x as usize;
            let cell = grid[yu][xu];
            if cell.ch == ' ' || cell.ch == '.' {
                let new_color = match color {
                    Some(c) => Some(c),
                    None => cell.color,
                };
                let ghost before = *grid;
                grid[yu][xu] = MapCell { ch, color: new_color };
                proof {
                    assert forall|r: int, c: int|
                        0 <= r < start@.len() && 0 <= c < start@[r]@.len() implies #[trigger] grid@[r]@[c] == (
                        if done.push(here).contains((c, r)) {
                            marked(start@[r]@[c], ch, color)
                        } else {
                            start@[r]@[c]
                        }) by {
                        if (c, r) == here {
                            assert(done.push(here)[done.len() as int] == here);
                        } else {
                            assert(grid@[r]@[c] == before@[r]@[c]);
                            if done.push(here).contains((c, r)) {
                                let k = choose|k: int| 0 <= k < done.len() + 1 && done.push(here)[k] == (c, r);
                                assert(done[k] == (c, r));
                            }
                            if done.contains((c, r)) {
                                let k = choose|k: int| 0 <= k < done.len() && done[k] == (c, r);
                                assert(done.push(here)[k] == (c, r));
                            }
                        }
                    }
                }
            } else {
                proof {
                    assert forall|r: int, c: int|
                        0 <= r < start@.len() && 0 <= c < start@[r]@.len() implies #[trigger] grid@[r]@[c] == (
                        if done.push(here).contains((c, r)) {
                            marked(start@[r]@[c], ch, color)
                        } else {
                            start@[r]@[c]
                        }) by {
                        if done.push(here).contains((c, r)) {
                            let k = choose|k: int| 0 <= k < done.len() + 1 && done.push(here)[k] == (c, r);
                            if k < done.len() {
                                assert(done[k] == (c, r));
                            }
                        }
                        if done.contains((c, r)) {
                            let k = choose|k: int| 0 <= k < done.len() && done[k] == (c, r);
                            assert(done.push(here)[k] == (c, r));
                        }
                    }
                }
            }
        } else {
            proof {
                assert forall|r: int, c: int|
                    0 <= r < start@.len() && 0 <= c < start@[r]@.len() implies #[trigger] grid@[r]@[c] == (
                    if done.push(here).contains((c, r)) {
                        marked(start@[r]@[c], ch, color)
                    } else {
                        start@[r]@[c]
                    }) by {
                    assert((c, r) != here);
                    if done.push(here).contains((c, r)) {
                        let k = choose|k: int| 0 <= k < done.len() + 1 && done.push(here)[k] == (c, r);
                        assert(done[k] == (c, r));
                    }
                    if done.contains((c, r)) {
                        let k = choose|k: int| 0 <= k < done.len() && done[k] == (c, r);
                        assert(done.push(here)[k] == (c, r));
                    }
                }
            }
        }
        let ghost ni: int = if steps_across(a, b, i, j) { i + 1 } else { i };
        let ghost nj: int = if steps_along(a, b, i, j) { j + 1 } else { j };
        proof {
            let f = (a - i + b - j) as nat;
            assert(walk_cells(x0 as int, y0 as int, x1 as int, y1 as int, i, j, f) == seq![here] + walk_cells(
                x0 as int,
                y0 as int,
                x1 as int,
                y1 as int,
                ni,
                nj,
                (f - 1) as nat,
            ));
            lemma_walk_fuel(x0 as int, y0 as int, x1 as int, y1 as int, ni, nj, (f - 1) as nat);
            assert(done + walk_cells(x0 as int, y0 as int, x1 as int, y1 as int, i, j, f) =~= done.push(here)
                + walk_cells(x0 as int, y0 as int, x1 as int, y1 as int, ni, nj, (f - 1) as nat));
        }
        let e2 = 2 * err;
        if e2 >= dy {
            proof {
                assert(b * (i + 1) == b * i + b) by (nonlinear_arith);
            }
            err = err + dy;
            x = x + sx;
        }
        if e2 <= dx {
            proof {
                assert(a * (j + 1) == a * j + a) by (nonlinear_arith);
            }
            err = err + dx;
            y = y + sy;
        }
        proof {
            done = done.push(here);
            i = ni;
            j = nj;
        }
    }
}

} // verus!
