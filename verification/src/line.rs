//! Straight lines between cells.

use vstd::prelude::*;
use crate::generator::DefaultGridGenerator;
use crate::grid::TileGrid;
use crate::paint::{
    has_dimensions, lemma_paint_dimensions, lemma_paint_push, lemma_paint_weight,
    lemma_weight_bound, paint, paint_count, path_in_bounds,
};
use crate::tile::Tile;

verus! {

/// The distance between two indices.
pub open spec fn span(a: int, b: int) -> int {
    if a < b {
        b - a
    } else {
        a - b
    }
}

/// The index `offset` steps from `from` in the direction of `to`.
pub open spec fn toward(from: int, to: int, offset: int) -> int {
    if from < to {
        from + offset
    } else {
        from - offset
    }
}

/// Whether a line that spans `dx` columns and `dy` rows moves on to the
/// next column after it has advanced `i` columns and `j` rows: it does
/// while the ideal line has not yet left the column. This is the test
/// `2 * err > -dy` of the error-accumulating form of the algorithm.
pub open spec fn steps_column(dx: int, dy: int, i: int, j: int) -> bool {
    (2 * j + 2) * dx > (2 * i + 1) * dy
}

/// Whether the line moves on to the next row: the test `2 * err < dx`.
pub open spec fn steps_row(dx: int, dy: int, i: int, j: int) -> bool {
    (2 * j + 1) * dx < (2 * i + 2) * dy
}

/// The column offset after the step from `(i, j)`.
pub open spec fn next_column(dx: int, dy: int, i: int, j: int) -> int {
    if steps_column(dx, dy, i, j) {
        i + 1
    } else {
        i
    }
}

/// The row offset after the step from `(i, j)`.
pub open spec fn next_row(dx: int, dy: int, i: int, j: int) -> int {
    if steps_row(dx, dy, i, j) {
        j + 1
    } else {
        j
    }
}

/// Short of its end, the line always moves, and never beyond its end in
/// either direction.
pub proof fn lemma_line_advances(dx: int, dy: int, i: int, j: int)
    requires
        0 <= i <= dx,
        0 <= j <= dy,
        !(i == dx && j == dy),
    ensures
        steps_column(dx, dy, i, j) || steps_row(dx, dy, i, j),
        i == dx ==> !steps_column(dx, dy, i, j),
        j == dy ==> !steps_row(dx, dy, i, j),
{
    assert(steps_column(dx, dy, i, j) || steps_row(dx, dy, i, j)) by (nonlinear_arith)
        requires
            0 <= i <= dx,
            0 <= j <= dy,
            !(i == dx && j == dy),
    {
        if (2 * j + 2) * dx <= (2 * i + 1) * dy && (2 * j + 1) * dx >= (2 * i + 2) * dy {
            assert((2 * j + 2) * dx == (2 * j + 1) * dx + dx);
            assert((2 * i + 2) * dy == (2 * i + 1) * dy + dy);
            assert(dx + dy <= 0);
        }
    }
    if i == dx {
        assert(!steps_column(dx, dy, i, j)) by (nonlinear_arith)
            requires
                i == dx,
                0 <= j < dy,
                0 <= dx,
        {
            assert((2 * j + 2) * dx <= (2 * dy) * dx);
            assert((2 * dx + 1) * dy == (2 * dy) * dx + dy);
        }
    }
    if j == dy {
        assert(!steps_row(dx, dy, i, j)) by (nonlinear_arith)
            requires
                j == dy,
                0 <= i < dx,
                0 <= dy,
        {
            assert((2 * i + 2) * dy <= (2 * dx) * dy);
            assert((2 * dy + 1) * dx == (2 * dx) * dy + dx);
        }
    }
}

/// The offsets from its start that a line spanning `dx` columns and `dy`
/// rows passes through from the offset `(i, j)` to its end.
pub open spec fn walk(dx: int, dy: int, i: int, j: int) -> Seq<(int, int)>
    decreases (dx - i) + (dy - j),
    when 0 <= i <= dx && 0 <= j <= dy
    via walk_decreases
{
    if i == dx && j == dy {
        seq![(i, j)]
    } else {
        seq![(i, j)] + walk(dx, dy, next_column(dx, dy, i, j), next_row(dx, dy, i, j))
    }
}

#[via_fn]
proof fn walk_decreases(dx: int, dy: int, i: int, j: int) {
    if !(i == dx && j == dy) {
        lemma_line_advances(dx, dy, i, j);
    }
}

/// The cell at the given offsets from the start of the line from
/// `(x1, y1)` to `(x2, y2)`.
pub open spec fn line_cell(x1: int, y1: int, x2: int, y2: int, offset: (int, int)) -> (int, int) {
    (toward(x1, x2, offset.0), toward(y1, y2, offset.1))
}

/// The cells, as column and row, of the straight line from `(x1, y1)` to
/// `(x2, y2)`, both ends included, in the order in which it is drawn.
pub open spec fn line_cells(x1: int, y1: int, x2: int, y2: int) -> Seq<(int, int)> {
    walk(span(x1, x2), span(y1, y2), 0, 0).map_values(
        |offset: (int, int)| line_cell(x1, y1, x2, y2, offset),
    )
}

/// Every offset of a walk lies between the start and the end of the line,
/// the walk starts where it is asked to and ends at the end of the line,
/// and each offset is a neighbour of the one before it: the column and
/// the row each stay or grow by one, and at least one of them grows.
pub proof fn lemma_walk_shape(dx: int, dy: int, i: int, j: int)
    requires
        0 <= i <= dx,
        0 <= j <= dy,
    ensures
        walk(dx, dy, i, j).len() >= 1,
        walk(dx, dy, i, j).first() == (i, j),
        walk(dx, dy, i, j).last() == (dx, dy),
        forall|k: int|
            0 <= k < walk(dx, dy, i, j).len() ==> i <= (#[trigger] walk(dx, dy, i, j)[k]).0 <= dx
                && j <= walk(dx, dy, i, j)[k].1 <= dy,
        forall|k: int|
            0 < k < walk(dx, dy, i, j).len() ==> {
                let a = walk(dx, dy, i, j)[k - 1];
                let b = #[trigger] walk(dx, dy, i, j)[k];
                &&& a.0 <= b.0 <= a.0 + 1
                &&& a.1 <= b.1 <= a.1 + 1
                &&& a != b
            },
    decreases (dx - i) + (dy - j),
{
    if !(i == dx && j == dy) {
        lemma_line_advances(dx, dy, i, j);
        let ni = next_column(dx, dy, i, j);
        let nj = next_row(dx, dy, i, j);
        lemma_walk_shape(dx, dy, ni, nj);
        let rest = walk(dx, dy, ni, nj);
        let all = walk(dx, dy, i, j);
        assert(all == seq![(i, j)] + rest);
        assert forall|k: int| 0 <= k < all.len() implies i <= (#[trigger] all[k]).0 <= dx && j
            <= all[k].1 <= dy by {
            if k > 0 {
                assert(all[k] == rest[k - 1]);
            }
        }
        assert forall|k: int| 0 < k < all.len() implies {
            let a = all[k - 1];
            let b = #[trigger] all[k];
            &&& a.0 <= b.0 <= a.0 + 1
            &&& a.1 <= b.1 <= a.1 + 1
            &&& a != b
        } by {
            assert(all[k] == rest[k - 1]);
            if k > 1 {
                assert(all[k - 1] == rest[k - 2]);
            } else {
                assert(rest[0] == rest.first());
            }
        }
        assert(all.last() == rest.last());
    }
}

/// How far the ideal line is ahead of the column over the row after `i`
/// columns and `j` rows: the line moves on to the next column while this
/// is below `dx`, and to the next row while it is above `-dy`.
pub open spec fn lag(dx: int, dy: int, i: int, j: int) -> int {
    (2 * i + 1) * dy - (2 * j + 1) * dx
}

/// A walk along the longer side of the line takes one step for every
/// column, a walk along the higher side one step for every row: a walk
/// has as many offsets left as the longer side has columns or rows left,
/// and one more.
pub proof fn lemma_walk_length(dx: int, dy: int, i: int, j: int)
    requires
        0 <= i <= dx,
        0 <= j <= dy,
        dx >= dy ==> lag(dx, dy, i, j) <= dy && (dx == dy ==> lag(dx, dy, i, j) == 0),
        dy > dx ==> lag(dx, dy, i, j) >= -dx,
    ensures
        walk(dx, dy, i, j).len() == if dx >= dy {
            dx - i + 1
        } else {
            dy - j + 1
        },
    decreases (dx - i) + (dy - j),
{
    if !(i == dx && j == dy) {
        lemma_line_advances(dx, dy, i, j);
        let d = lag(dx, dy, i, j);
        let ni = next_column(dx, dy, i, j);
        let nj = next_row(dx, dy, i, j);
        assert(steps_column(dx, dy, i, j) == (d < dx)) by (nonlinear_arith)
            requires
                d == (2 * i + 1) * dy - (2 * j + 1) * dx,
        ;
        assert(steps_row(dx, dy, i, j) == (d > -dy)) by (nonlinear_arith)
            requires
                d == (2 * i + 1) * dy - (2 * j + 1) * dx,
        ;
        assert(lag(dx, dy, i + 1, j) == d + 2 * dy) by (nonlinear_arith)
            requires
                d == (2 * i + 1) * dy - (2 * j + 1) * dx,
        ;
        assert(lag(dx, dy, i, j + 1) == d - 2 * dx) by (nonlinear_arith)
            requires
                d == (2 * i + 1) * dy - (2 * j + 1) * dx,
        ;
        assert(lag(dx, dy, i + 1, j + 1) == d + 2 * dy - 2 * dx) by (nonlinear_arith)
            requires
                d == (2 * i + 1) * dy - (2 * j + 1) * dx,
        ;
        if dx >= dy {
            if i == dx {
                // The walk would have reached the last column before the last
                // row: the line would then lag too far.
                assert(d >= dx + dy) by (nonlinear_arith)
                    requires
                        d == (2 * i + 1) * dy - (2 * j + 1) * dx,
                        i == dx,
                        0 <= j < dy,
                        0 <= dx,
                ;
                assert(false);
            }
            assert(ni == i + 1);
        } else {
            if j == dy {
                assert(d <= -dy - dx) by (nonlinear_arith)
                    requires
                        d == (2 * i + 1) * dy - (2 * j + 1) * dx,
                        j == dy,
                        0 <= i < dx,
                        0 <= dy,
                ;
                assert(false);
            }
            assert(nj == j + 1);
        }
        lemma_walk_length(dx, dy, ni, nj);
    }
}

/// A line has one cell for every column it spans, or for every row if
/// it spans more rows, and one more.
pub proof fn lemma_line_length(x1: int, y1: int, x2: int, y2: int)
    ensures
        line_cells(x1, y1, x2, y2).len() == if span(x1, x2) >= span(y1, y2) {
            span(x1, x2) + 1
        } else {
            span(y1, y2) + 1
        },
{
    let dx = span(x1, x2);
    let dy = span(y1, y2);
    assert(lag(dx, dy, 0, 0) == dy - dx) by (nonlinear_arith);
    lemma_walk_length(dx, dy, 0, 0);
}

/// A line between two cells of a grid stays in the grid. It starts at its
/// first end and stops at its second, and each of its cells touches the
/// one before it, at a side or at a corner: the line has no gap.
pub proof fn lemma_line_shape(x1: int, y1: int, x2: int, y2: int, width: int, height: int)
    requires
        0 <= x1 < width,
        0 <= x2 < width,
        0 <= y1 < height,
        0 <= y2 < height,
    ensures
        path_in_bounds(line_cells(x1, y1, x2, y2), width, height),
        line_cells(x1, y1, x2, y2).len() >= 1,
        line_cells(x1, y1, x2, y2).first() == (x1, y1),
        line_cells(x1, y1, x2, y2).last() == (x2, y2),
        forall|k: int|
            0 < k < line_cells(x1, y1, x2, y2).len() ==> {
                let a = line_cells(x1, y1, x2, y2)[k - 1];
                let b = #[trigger] line_cells(x1, y1, x2, y2)[k];
                &&& span(a.0, b.0) <= 1
                &&& span(a.1, b.1) <= 1
                &&& a != b
            },
{
    let dx = span(x1, x2);
    let dy = span(y1, y2);
    lemma_walk_shape(dx, dy, 0, 0);
    let offsets = walk(dx, dy, 0, 0);
    let line = line_cells(x1, y1, x2, y2);
    assert(line.len() == offsets.len());
    assert forall|k: int| 0 <= k < line.len() implies 0 <= (#[trigger] line[k]).0 < width && 0
        <= line[k].1 < height by {
        assert(line[k] == line_cell(x1, y1, x2, y2, offsets[k]));
        assert(0 <= offsets[k].0 <= dx && 0 <= offsets[k].1 <= dy);
    }
    assert(line.first() == line_cell(x1, y1, x2, y2, offsets.first()));
    assert(line.last() == line_cell(x1, y1, x2, y2, offsets.last()));
    assert forall|k: int| 0 < k < line.len() implies {
        let a = line[k - 1];
        let b = #[trigger] line[k];
        &&& span(a.0, b.0) <= 1
        &&& span(a.1, b.1) <= 1
        &&& a != b
    } by {
        assert(line[k] == line_cell(x1, y1, x2, y2, offsets[k]));
        assert(line[k - 1] == line_cell(x1, y1, x2, y2, offsets[k - 1]));
        let a = offsets[k - 1];
        let b = offsets[k];
        assert(a.0 <= b.0 <= a.0 + 1 && a.1 <= b.1 <= a.1 + 1 && a != b);
    }
}

impl DefaultGridGenerator {
    /// Draws the straight line from cell `(x1, y1)` to cell `(x2, y2)`:
    /// offers `tile` to each cell of the line in turn and returns how many
    /// cells took it.
    pub fn draw_line(
        &self,
        x1: usize,
        y1: usize,
        x2: usize,
        y2: usize,
        tile: &Tile,
        grid: &mut TileGrid,
    ) -> (r: usize)
        requires
            old(grid).wf(),
            old(grid).in_bounds(x1 as int, y1 as int),
            old(grid).in_bounds(x2 as int, y2 as int),
        ensures
            final(grid).wf(),
            final(grid).same_frame(old(grid)),
            final(grid).cells() == paint(
                old(grid).cells(),
                line_cells(x1 as int, y1 as int, x2 as int, y2 as int),
                tile@,
            ),
            r == paint_count(
                old(grid).cells(),
                line_cells(x1 as int, y1 as int, x2 as int, y2 as int),
                tile@,
            ),
    {
        let dx: i128 = if x1 < x2 {
            (x2 - x1) as i128
        } else {
            (x1 - x2) as i128
        };
        let dy: i128 = if y1 < y2 {
            (y2 - y1) as i128
        } else {
            (y1 - y2) as i128
        };
        let mut err: i128 = dx - dy;
        let mut x: usize = x1;
        let mut y: usize = y1;
        let mut count: usize = 0;
        let ghost start = grid.cells();
        let ghost line = line_cells(x1 as int, y1 as int, x2 as int, y2 as int);
        let ghost mut i: int = 0;
        let ghost mut j: int = 0;
        let ghost mut done: Seq<(int, int)> = Seq::empty();
        let ghost place = |offset: (int, int)| line_cell(x1 as int, y1 as int, x2 as int, y2 as int, offset);
        proof {
            grid.lemma_cells();
            assert(dx >= 0 && dy >= 0);
            assert(done + walk(dx as int, dy as int, 0, 0).map_values(place) =~= line);
            assert(0 * dy == 0 && 0 * dx == 0) by (nonlinear_arith);
        }
        loop
            invariant_except_break
                line == done + walk(dx as int, dy as int, i, j).map_values(place),
            invariant
                grid.wf(),
                grid.same_frame(old(grid)),
                old(grid).in_bounds(x1 as int, y1 as int),
                old(grid).in_bounds(x2 as int, y2 as int),
                dx == span(x1 as int, x2 as int),
                dy == span(y1 as int, y2 as int),
                line == line_cells(x1 as int, y1 as int, x2 as int, y2 as int),
                place == |offset: (int, int)|
                    line_cell(x1 as int, y1 as int, x2 as int, y2 as int, offset),
                0 <= i <= dx,
                0 <= j <= dy,
                x == toward(x1 as int, x2 as int, i),
                y == toward(y1 as int, y2 as int, j),
                err == dx - dy - i * dy + j * dx,
                -2 * dy <= err <= 2 * dx,
                has_dimensions(start, grid.width as int, grid.height as int),
                path_in_bounds(done, grid.width as int, grid.height as int),
                grid.cells() == paint(start, done, tile@),
                count == paint_count(start, done, tile@),
            ensures
                done == line,
            decreases (dx - i) + (dy - j),
        {
            proof {
                let next = done.push((x as int, y as int));
                lemma_paint_push(start, done, (x as int, y as int), tile@);
                assert(path_in_bounds(next, grid.width as int, grid.height as int)) by {
                    assert forall|k: int| 0 <= k < next.len() implies 0 <= (#[trigger] next[k]).0
                        < grid.width && 0 <= next[k].1 < grid.height by {
                        if k < done.len() {
                            assert(next[k] == done[k]);
                        }
                    }
                }
                lemma_paint_weight(start, next, tile@, grid.width as int, grid.height as int);
                lemma_paint_dimensions(start, next, tile@, grid.width as int, grid.height as int);
                lemma_weight_bound(
                    paint(start, next, tile@),
                    grid.width as int,
                    grid.height as int,
                );
            }
            let written = grid.set_tile_with_priority(x, y, tile.clone());
            match written {
                Ok(true) => {
                    count = count + 1;
                },
                _ => {},
            }
            proof {
                done = done.push((x as int, y as int));
                let rest = walk(dx as int, dy as int, i, j);
                if !(i == dx && j == dy) {
                    lemma_line_advances(dx as int, dy as int, i, j);
                }
                if i == dx && j == dy {
                    assert(rest.map_values(place) =~= seq![(x as int, y as int)]);
                    assert(line =~= done);
                } else {
                    let following = walk(
                        dx as int,
                        dy as int,
                        next_column(dx as int, dy as int, i, j),
                        next_row(dx as int, dy as int, i, j),
                    );
                    assert(rest == seq![(i, j)] + following);
                    assert(rest.map_values(place) =~= seq![(x as int, y as int)]
                        + following.map_values(place));
                    assert(line =~= done + following.map_values(place));
                }
            }
            if x == x2 && y == y2 {
                break;
            }
            proof {
                lemma_line_advances(dx as int, dy as int, i, j);
                assert(steps_column(dx as int, dy as int, i, j) == (2 * err > -dy))
                    by (nonlinear_arith)
                    requires
                        err == dx - dy - i * dy + j * dx,
                ;
                assert(steps_row(dx as int, dy as int, i, j) == (2 * err < dx))
                    by (nonlinear_arith)
                    requires
                        err == dx - dy - i * dy + j * dx,
                ;
            }
            let e2: i128 = 2 * err;
            if e2 > -dy {
                err = err - dy;
                if x1 < x2 {
                    x = x + 1;
                } else {
                    x = x - 1;
                }
                proof {
                    assert((i + 1) * dy == i * dy + dy) by (nonlinear_arith);
                    i = i + 1;
                }
            }
            if e2 < dx {
                err = err + dx;
                if y1 < y2 {
                    y = y + 1;
                } else {
                    y = y - 1;
                }
                proof {
                    assert((j + 1) * dx == j * dx + dx) by (nonlinear_arith);
                    j = j + 1;
                }
            }
        }
        count
    }
}

} // verus!
