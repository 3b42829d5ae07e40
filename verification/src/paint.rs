//! What a run of priority-gated writes does to the tiles of a grid.

use vstd::prelude::*;
use crate::grid::{with_cell, with_cell_by_priority};
use crate::tile::TileView;

verus! {

/// Whether `cells` is `height` rows of `width` tiles.
pub open spec fn has_dimensions(cells: Seq<Seq<TileView>>, width: int, height: int) -> bool {
    &&& cells.len() == height
    &&& forall|y: int| 0 <= y < height ==> (#[trigger] cells[y]).len() == width
}

/// Whether every cell of `path`, given as column and row, lies in a grid
/// of the given dimensions.
pub open spec fn path_in_bounds(path: Seq<(int, int)>, width: int, height: int) -> bool {
    forall|k: int|
        0 <= k < path.len() ==> 0 <= (#[trigger] path[k]).0 < width && 0 <= path[k].1 < height
}

/// The tiles after `tile` was offered to each cell of `path` in turn, each
/// cell taking it only where its own tile yields.
pub open spec fn paint(cells: Seq<Seq<TileView>>, path: Seq<(int, int)>, tile: TileView) -> Seq<
    Seq<TileView>,
>
    decreases path.len(),
{
    if path.len() == 0 {
        cells
    } else {
        with_cell_by_priority(
            paint(cells, path.drop_last(), tile),
            path.last().0,
            path.last().1,
            tile,
        )
    }
}

/// How many of the offers along `path` were taken.
pub open spec fn paint_count(cells: Seq<Seq<TileView>>, path: Seq<(int, int)>, tile: TileView) -> nat
    decreases path.len(),
{
    if path.len() == 0 {
        0
    } else {
        paint_count(cells, path.drop_last(), tile) + if paint(cells, path.drop_last(), tile)[path.last().1][path.last().0].yields_to(
            tile,
        ) {
            1nat
        } else {
            0nat
        }
    }
}

/// The sum of the priorities of the tiles of a row.
pub open spec fn row_weight(row: Seq<TileView>) -> nat
    decreases row.len(),
{
    if row.len() == 0 {
        0
    } else {
        row_weight(row.drop_last()) + row.last().kind.priority() as nat
    }
}

/// The sum of the priorities of all tiles.
pub open spec fn weight(cells: Seq<Seq<TileView>>) -> nat
    decreases cells.len(),
{
    if cells.len() == 0 {
        0
    } else {
        weight(cells.drop_last()) + row_weight(cells.last())
    }
}

/// No priority is above eleven, so a row weighs at most eleven times its
/// length.
pub proof fn lemma_row_weight_bound(row: Seq<TileView>)
    ensures
        row_weight(row) <= 11 * row.len(),
    decreases row.len(),
{
    if row.len() > 0 {
        lemma_row_weight_bound(row.drop_last());
    }
}

/// A grid weighs at most eleven times the number of its tiles.
pub proof fn lemma_weight_bound(cells: Seq<Seq<TileView>>, width: int, height: int)
    requires
        has_dimensions(cells, width, height),
    ensures
        weight(cells) <= width * height * 11,
    decreases cells.len(),
{
    if cells.len() > 0 {
        let rest = cells.drop_last();
        assert(has_dimensions(rest, width, height - 1)) by {
            assert forall|y: int| 0 <= y < height - 1 implies (#[trigger] rest[y]).len()
                == width by {
                assert(rest[y] == cells[y]);
            }
        }
        lemma_weight_bound(rest, width, height - 1);
        lemma_row_weight_bound(cells.last());
        assert(cells.last() == cells[height - 1]);
        assert(width * (height - 1) * 11 + 11 * width == width * height * 11)
            by (nonlinear_arith);
    } else {
        assert(width * 0 * 11 == 0) by (nonlinear_arith);
    }
}

/// Replacing one tile of a row changes the weight of the row by the
/// difference of the priorities.
pub proof fn lemma_row_weight_update(row: Seq<TileView>, x: int, tile: TileView)
    requires
        0 <= x < row.len(),
    ensures
        row_weight(row.update(x, tile)) + row[x].kind.priority() == row_weight(row)
            + tile.kind.priority(),
    decreases row.len(),
{
    let after = row.update(x, tile);
    if x == row.len() - 1 {
        assert(after.drop_last() =~= row.drop_last());
    } else {
        assert(after.drop_last() =~= row.drop_last().update(x, tile));
        lemma_row_weight_update(row.drop_last(), x, tile);
    }
}

/// Replacing one tile of a grid changes its weight by the difference of
/// the priorities.
pub proof fn lemma_weight_update(cells: Seq<Seq<TileView>>, x: int, y: int, tile: TileView)
    requires
        0 <= y < cells.len(),
        0 <= x < cells[y].len(),
    ensures
        weight(with_cell(cells, x, y, tile)) + cells[y][x].kind.priority() == weight(cells)
            + tile.kind.priority(),
    decreases cells.len(),
{
    let after = with_cell(cells, x, y, tile);
    if y == cells.len() - 1 {
        assert(after.drop_last() =~= cells.drop_last());
        lemma_row_weight_update(cells[y], x, tile);
    } else {
        assert(after.drop_last() =~= with_cell(cells.drop_last(), x, y, tile));
        lemma_weight_update(cells.drop_last(), x, y, tile);
    }
}

/// Painting keeps the dimensions of the grid.
pub proof fn lemma_paint_dimensions(
    cells: Seq<Seq<TileView>>,
    path: Seq<(int, int)>,
    tile: TileView,
    width: int,
    height: int,
)
    requires
        has_dimensions(cells, width, height),
        path_in_bounds(path, width, height),
    ensures
        has_dimensions(paint(cells, path, tile), width, height),
    decreases path.len(),
{
    if path.len() > 0 {
        let rest = path.drop_last();
        assert(path_in_bounds(rest, width, height)) by {
            assert forall|k: int| 0 <= k < rest.len() implies 0 <= (#[trigger] rest[k]).0 < width
                && 0 <= rest[k].1 < height by {
                assert(rest[k] == path[k]);
            }
        }
        lemma_paint_dimensions(cells, rest, tile, width, height);
        assert(path.last() == path[path.len() - 1]);
    }
}

/// Every offer that is taken raises the weight of the grid: the weight
/// after painting is at least the weight before plus the number of offers
/// taken.
pub proof fn lemma_paint_weight(
    cells: Seq<Seq<TileView>>,
    path: Seq<(int, int)>,
    tile: TileView,
    width: int,
    height: int,
)
    requires
        has_dimensions(cells, width, height),
        path_in_bounds(path, width, height),
    ensures
        weight(cells) + paint_count(cells, path, tile) <= weight(paint(cells, path, tile)),
    decreases path.len(),
{
    if path.len() > 0 {
        let rest = path.drop_last();
        assert(path_in_bounds(rest, width, height)) by {
            assert forall|k: int| 0 <= k < rest.len() implies 0 <= (#[trigger] rest[k]).0 < width
                && 0 <= rest[k].1 < height by {
                assert(rest[k] == path[k]);
            }
        }
        lemma_paint_weight(cells, rest, tile, width, height);
        lemma_paint_dimensions(cells, rest, tile, width, height);
        let mid = paint(cells, rest, tile);
        let (x, y) = path.last();
        assert(path.last() == path[path.len() - 1]);
        if mid[y][x].yields_to(tile) {
            lemma_weight_update(mid, x, y, tile);
        }
    }
}

/// Painting along one path and then along another is painting along both
/// in a row, and the offers taken add up.
pub proof fn lemma_paint_concat(
    cells: Seq<Seq<TileView>>,
    first: Seq<(int, int)>,
    second: Seq<(int, int)>,
    tile: TileView,
)
    ensures
        paint(cells, first + second, tile) == paint(paint(cells, first, tile), second, tile),
        paint_count(cells, first + second, tile) == paint_count(cells, first, tile) + paint_count(
            paint(cells, first, tile),
            second,
            tile,
        ),
    decreases second.len(),
{
    if second.len() == 0 {
        assert(first + second =~= first);
    } else {
        assert((first + second).drop_last() =~= first + second.drop_last());
        assert((first + second).last() == second.last());
        lemma_paint_concat(cells, first, second.drop_last(), tile);
    }
}

/// Painting along a path with one more cell offers the tile to that cell
/// after the rest of the path.
pub proof fn lemma_paint_push(
    cells: Seq<Seq<TileView>>,
    path: Seq<(int, int)>,
    cell: (int, int),
    tile: TileView,
)
    ensures
        paint(cells, path.push(cell), tile) == with_cell_by_priority(
            paint(cells, path, tile),
            cell.0,
            cell.1,
            tile,
        ),
        paint_count(cells, path.push(cell), tile) == paint_count(cells, path, tile) + if paint(
            cells,
            path,
            tile,
        )[cell.1][cell.0].yields_to(tile) {
            1nat
        } else {
            0nat
        },
{
    assert(path.push(cell).drop_last() =~= path);
    assert(path.push(cell).last() == cell);
}

/// What painting does to the priority of a cell: if the cell lies on the
/// path and the tile has a higher priority than the cell, the cell has
/// the priority of the tile afterwards; else it keeps its own.
pub proof fn lemma_paint_priority(
    cells: Seq<Seq<TileView>>,
    path: Seq<(int, int)>,
    tile: TileView,
    width: int,
    height: int,
    x: int,
    y: int,
)
    requires
        has_dimensions(cells, width, height),
        path_in_bounds(path, width, height),
        0 <= x < width,
        0 <= y < height,
    ensures
        paint(cells, path, tile)[y][x].kind.priority() == if path.contains((x, y))
            && tile.kind.priority() > cells[y][x].kind.priority() {
            tile.kind.priority()
        } else {
            cells[y][x].kind.priority()
        },
    decreases path.len(),
{
    if path.len() > 0 {
        let rest = path.drop_last();
        assert(path_in_bounds(rest, width, height)) by {
            assert forall|k: int| 0 <= k < rest.len() implies 0 <= (#[trigger] rest[k]).0 < width
                && 0 <= rest[k].1 < height by {
                assert(rest[k] == path[k]);
            }
        }
        lemma_paint_priority(cells, rest, tile, width, height, x, y);
        lemma_paint_dimensions(cells, rest, tile, width, height);
        assert(path.last() == path[path.len() - 1]);
        if rest.contains((x, y)) {
            let k = choose|k: int| 0 <= k < rest.len() && rest[k] == (x, y);
            assert(path[k] == (x, y));
        }
        if path.contains((x, y)) && path.last() != (x, y) {
            let k = choose|k: int| 0 <= k < path.len() && path[k] == (x, y);
            assert(rest[k] == (x, y));
        }
    }
}

} // verus!
