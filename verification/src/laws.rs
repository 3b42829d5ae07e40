//! Laws that relate the operations of the library to each other.

use vstd::prelude::*;
use crate::arith::{
    center_offset, lemma_center_offset_range, lemma_quotient_bounds, lemma_quotient_unique,
    scaled_index,
};
use crate::element::{classify, use_kind, ElementView};
use crate::generator::{
    element_cells, element_tile, lemma_cell_in_bounds, lemma_element_in_bounds,
    lemma_rasterize_weight, rasterize_all,
};
use crate::line::{lemma_line_length, lemma_line_shape, line_cells, span};
use crate::paint::{has_dimensions, lemma_paint_priority, paint, path_in_bounds};
use crate::polygon::{centre_inside, fill_cells, lemma_rows_fill_contains, mapped_extent};
use crate::grid::{with_cell_by_priority, Frame};
use crate::stats::{lemma_rows_count_bound, rows_count};
use crate::tile::{TileKind, TileView};

verus! {

/// A cell that holds a tile takes every tile of a strictly higher
/// priority, and after it has taken one it refuses the tile it held
/// before: the second write changes nothing.
pub proof fn law_priority_monotonic(
    cells: Seq<Seq<TileView>>,
    x: int,
    y: int,
    low: TileView,
    high: TileView,
)
    requires
        0 <= y < cells.len(),
        0 <= x < cells[y].len(),
        cells[y][x] == low,
        high.kind.priority() > low.kind.priority(),
    ensures
        low.yields_to(high),
        with_cell_by_priority(cells, x, y, high)[y][x] == high,
        !high.yields_to(low),
        with_cell_by_priority(with_cell_by_priority(cells, x, y, high), x, y, low)
            == with_cell_by_priority(cells, x, y, high),
{
}

/// A write of the same or a lower priority never changes a cell.
pub proof fn law_equal_priority_keeps_first(
    cells: Seq<Seq<TileView>>,
    x: int,
    y: int,
    tile: TileView,
)
    requires
        0 <= y < cells.len(),
        0 <= x < cells[y].len(),
        tile.kind.priority() <= cells[y][x].kind.priority(),
    ensures
        with_cell_by_priority(cells, x, y, tile) == cells,
{
}

/// Whether the centre of cell `index`, rounded down to a whole coordinate
/// unit, still lies in that cell, when `span` units are cut into `cells`
/// cells. It does in every cell as soon as a cell spans two units.
pub open spec fn centre_in_cell(index: int, span: int, cells: int) -> bool {
    if span > 0 {
        span * index <= center_offset(index, span, cells) * cells
    } else {
        span == 0 && index == 0
    }
}

/// Along one axis, the centre of a cell maps back to the cell, provided
/// that the centre, rounded down to a whole unit, lies in the cell.
pub proof fn lemma_axis_round_trip(index: int, span: int, cells: int)
    requires
        0 <= index < cells,
        centre_in_cell(index, span, cells),
    ensures
        scaled_index(center_offset(index, span, cells), span, cells) == index,
{
    if span > 0 {
        let n = (2 * index + 1) * span;
        let d = 2 * cells;
        let c = n / d;
        lemma_quotient_bounds(n, d);
        assert(c * cells < span * index + span) by (nonlinear_arith)
            requires
                n == (2 * index + 1) * span,
                d == 2 * cells,
                d * c <= n,
                span > 0,
                cells > 0,
        ;
        assert(span * index <= c * cells);
        lemma_quotient_unique(c * cells, span, index);
    }
}

/// Where every cell spans at least two coordinate units, the centre of
/// each cell, rounded down, lies in the cell.
pub proof fn lemma_wide_cells_hold_centres(index: int, span: int, cells: int)
    requires
        0 <= index < cells,
        span >= 2 * cells,
    ensures
        centre_in_cell(index, span, cells),
{
    let n = (2 * index + 1) * span;
    let d = 2 * cells;
    let c = n / d;
    lemma_quotient_bounds(n, d);
    assert(span * index <= c * cells) by (nonlinear_arith)
        requires
            n == (2 * index + 1) * span,
            d == 2 * cells,
            n < d * c + d,
            span >= 2 * cells,
            cells > 0,
            0 <= index,
    ;
}

/// The centre of a cell lies in the cell: mapping a cell to the
/// coordinates of its centre and those back to a cell gives the cell
/// again. This holds of every cell whose centre, rounded down to a whole
/// coordinate unit, is still in the cell.
pub proof fn law_centre_round_trip(frame: Frame, x: int, y: int)
    requires
        frame.in_bounds(x, y),
        centre_in_cell(x, frame.bounding_box.width_spec(), frame.width),
        centre_in_cell(y, frame.bounding_box.height_spec(), frame.height),
    ensures
        frame.center_of(x, y) matches Some((lat, lon)) && frame.cell_of(lat, lon) == Some((x, y)),
{
    let b = frame.bounding_box;
    lemma_center_offset_range(x, b.width_spec(), frame.width);
    lemma_center_offset_range(y, b.height_spec(), frame.height);
    lemma_axis_round_trip(x, b.width_spec(), frame.width);
    lemma_axis_round_trip(y, b.height_spec(), frame.height);
}

/// On a grid in which every cell spans at least two coordinate units each
/// way, the round trip from a cell to its centre and back gives the cell,
/// for every cell.
pub proof fn law_centre_round_trip_wide(frame: Frame, x: int, y: int)
    requires
        frame.in_bounds(x, y),
        frame.bounding_box.width_spec() >= 2 * frame.width,
        frame.bounding_box.height_spec() >= 2 * frame.height,
    ensures
        frame.center_of(x, y) matches Some((lat, lon)) && frame.cell_of(lat, lon) == Some((x, y)),
{
    lemma_wide_cells_hold_centres(x, frame.bounding_box.width_spec(), frame.width);
    lemma_wide_cells_hold_centres(y, frame.bounding_box.height_spec(), frame.height);
    law_centre_round_trip(frame, x, y);
}

/// A point has a cell exactly if it lies in the bounding box, and its
/// cell is then a cell of the grid.
pub proof fn law_bounding(frame: Frame, lat: int, lon: int)
    requires
        frame.width > 0,
        frame.height > 0,
    ensures
        frame.cell_of(lat, lon) is Some == frame.bounding_box.contains_spec(lat, lon),
        frame.cell_of(lat, lon) matches Some(cell) ==> frame.in_bounds(cell.0, cell.1),
{
    lemma_cell_in_bounds(frame, lat, lon);
}

/// The tiles that are empty and those that are not make up the grid: the
/// number of empty tiles never exceeds the number of tiles.
pub proof fn law_coverage_conservation(cells: Seq<Seq<TileView>>, width: nat, height: nat)
    requires
        cells.len() == height,
        forall|y: int| 0 <= y < height ==> (#[trigger] cells[y]).len() == width,
    ensures
        rows_count(cells, TileKind::Empty) <= width * height,
{
    lemma_rows_count_bound(cells, TileKind::Empty, width);
    assert(height * width == width * height) by (nonlinear_arith);
}

/// The tile that an element offers depends on its tags and its
/// identifier only, and its kind on the tags only: elements with the same
/// tags are of the same kind.
pub proof fn law_classification_by_tags(a: ElementView, b: ElementView)
    requires
        a.tags == b.tags,
    ensures
        element_tile(a).kind == element_tile(b).kind,
        element_tile(a).kind == classify(a.tags),
{
}

/// The rule for buildings comes first: whatever else the tags say, an
/// element with a `building` tag is residential, commercial or industrial
/// where the value says so, and a building otherwise.
pub proof fn law_building_rule_first(tags: Map<Seq<char>, Seq<char>>)
    requires
        tags.contains_key("building"@),
    ensures
        classify(tags) == match use_kind(tags["building"@]) {
            Some(kind) => kind,
            None => TileKind::Building,
        },
        classify(tags) is Building || classify(tags) is Residential || classify(tags) is Commercial
            || classify(tags) is Industrial,
{
}

/// Painting never lowers the priority of a cell: a cell that once took a
/// tile is not taken back by one of the same or a lower priority.
pub proof fn law_paint_never_lowers(
    cells: Seq<Seq<TileView>>,
    path: Seq<(int, int)>,
    tile: TileView,
    width: int,
    height: int,
    x: int,
    y: int,
)
    requires
        has_dimensions(cells, width, height),
        path_in_bounds(path, width, height),
        0 <= x < width,
        0 <= y < height,
    ensures
        paint(cells, path, tile)[y][x].kind.priority() >= cells[y][x].kind.priority(),
{
    lemma_paint_priority(cells, path, tile, width, height, x, y);
}

/// A line between two cells of a grid has no gap: it starts at the one
/// and ends at the other, every cell of it lies in the grid, and each
/// cell touches the one before it at a side or at a corner. It has as
/// many cells as the longer of its sides.
pub proof fn law_line_is_connected(x1: int, y1: int, x2: int, y2: int, width: int, height: int)
    requires
        0 <= x1 < width,
        0 <= x2 < width,
        0 <= y1 < height,
        0 <= y2 < height,
    ensures
        path_in_bounds(line_cells(x1, y1, x2, y2), width, height),
        line_cells(x1, y1, x2, y2).len() == if span(x1, x2) >= span(y1, y2) {
            span(x1, x2) + 1
        } else {
            span(y1, y2) + 1
        },
        line_cells(x1, y1, x2, y2).first() == (x1, y1),
        line_cells(x1, y1, x2, y2).last() == (x2, y2),
        forall|k: int|
            0 < k < line_cells(x1, y1, x2, y2).len() ==> {
                let a = line_cells(x1, y1, x2, y2)[k - 1];
                let b = #[trigger] line_cells(x1, y1, x2, y2)[k];
                span(a.0, b.0) <= 1 && span(a.1, b.1) <= 1 && a != b
            },
{
    lemma_line_shape(x1, y1, x2, y2, width, height);
    lemma_line_length(x1, y1, x2, y2);
}

/// Filling a polygon offers the tile to exactly those cells of the
/// rectangle round the polygon's own cells whose centres lie inside the
/// polygon.
pub proof fn law_fill_covers_interior(frame: Frame, polygon: Seq<(i32, i32)>, x: int, y: int)
    ensures
        fill_cells(frame, polygon).contains((x, y)) <==> (mapped_extent(
            frame,
            polygon,
            polygon.len() as int,
        ) matches Some((min_x, max_x, min_y, max_y)) && min_x <= x <= max_x && min_y <= y <= max_y
            && centre_inside(frame, polygon, x, y)),
{
    match mapped_extent(frame, polygon, polygon.len() as int) {
        None => {},
        Some((min_x, max_x, min_y, max_y)) => {
            lemma_rows_fill_contains(frame, polygon, min_x, max_x + 1, min_y, max_y + 1, (x, y));
        },
    }
}

/// Whether an element offers its tile to the cell at column `x` of row
/// `y`.
pub open spec fn covers(frame: Frame, element: ElementView, x: int, y: int) -> bool {
    element_cells(frame, element).contains((x, y))
}

/// Whether `p` is the greatest of the priority `start` and the priorities
/// of the elements that offer their tiles to the cell `(x, y)`.
pub open spec fn is_greatest_priority(
    p: int,
    start: int,
    frame: Frame,
    elements: Seq<ElementView>,
    x: int,
    y: int,
) -> bool {
    &&& p >= start
    &&& forall|i: int|
        0 <= i < elements.len() && covers(frame, #[trigger] elements[i], x, y) ==> p
            >= element_tile(elements[i]).kind.priority()
    &&& (p == start || exists|i: int|
        0 <= i < elements.len() && covers(frame, #[trigger] elements[i], x, y) && p
            == element_tile(elements[i]).kind.priority())
}

/// After the elements are drawn, the priority of each cell is the
/// greatest among the priority it had and the priorities of the elements
/// that offered their tiles to it, whatever the order of the elements.
pub proof fn law_highest_priority_wins(
    cells: Seq<Seq<TileView>>,
    frame: Frame,
    elements: Seq<ElementView>,
    x: int,
    y: int,
)
    requires
        frame.width > 0,
        frame.height > 0,
        has_dimensions(cells, frame.width, frame.height),
        frame.in_bounds(x, y),
    ensures
        is_greatest_priority(
            rasterize_all(cells, frame, elements)[y][x].kind.priority() as int,
            cells[y][x].kind.priority() as int,
            frame,
            elements,
            x,
            y,
        ),
    decreases elements.len(),
{
    if elements.len() > 0 {
        let rest = elements.drop_last();
        let last = elements.last();
        law_highest_priority_wins(cells, frame, rest, x, y);
        lemma_rasterize_weight(cells, frame, rest);
        lemma_element_in_bounds(frame, last);
        let before = rasterize_all(cells, frame, rest);
        lemma_paint_priority(
            before,
            element_cells(frame, last),
            element_tile(last),
            frame.width,
            frame.height,
            x,
            y,
        );
        let q = before[y][x].kind.priority() as int;
        let p = rasterize_all(cells, frame, elements)[y][x].kind.priority() as int;
        let start = cells[y][x].kind.priority() as int;
        assert(elements[elements.len() - 1] == last);
        assert forall|i: int|
            0 <= i < elements.len() && covers(frame, #[trigger] elements[i], x, y) implies p
            >= element_tile(elements[i]).kind.priority() by {
            if i < rest.len() {
                assert(rest[i] == elements[i]);
            }
        }
        if p != start {
            if p == q {
                let i = choose|i: int|
                    0 <= i < rest.len() && covers(frame, #[trigger] rest[i], x, y) && q
                        == element_tile(rest[i]).kind.priority();
                assert(elements[i] == rest[i]);
            }
        }
    }
}

/// The order of the elements decides nothing about priorities: two lists
/// of the same elements leave every cell with the same priority.
pub proof fn law_order_does_not_matter(
    cells: Seq<Seq<TileView>>,
    frame: Frame,
    first: Seq<ElementView>,
    second: Seq<ElementView>,
    x: int,
    y: int,
)
    requires
        frame.width > 0,
        frame.height > 0,
        has_dimensions(cells, frame.width, frame.height),
        frame.in_bounds(x, y),
        forall|e: ElementView| first.contains(e) <==> second.contains(e),
    ensures
        rasterize_all(cells, frame, first)[y][x].kind.priority() == rasterize_all(
            cells,
            frame,
            second,
        )[y][x].kind.priority(),
{
    law_highest_priority_wins(cells, frame, first, x, y);
    law_highest_priority_wins(cells, frame, second, x, y);
    let p = rasterize_all(cells, frame, first)[y][x].kind.priority() as int;
    let q = rasterize_all(cells, frame, second)[y][x].kind.priority() as int;
    let start = cells[y][x].kind.priority() as int;
    assert(p <= q) by {
        if p != start {
            let i = choose|i: int|
                0 <= i < first.len() && covers(frame, #[trigger] first[i], x, y) && p
                    == element_tile(first[i]).kind.priority();
            assert(first.contains(first[i]));
            let j = choose|j: int| 0 <= j < second.len() && second[j] == first[i];
            assert(covers(frame, second[j], x, y));
        }
    }
    assert(q <= p) by {
        if q != start {
            let i = choose|i: int|
                0 <= i < second.len() && covers(frame, #[trigger] second[i], x, y) && q
                    == element_tile(second[i]).kind.priority();
            assert(second.contains(second[i]));
            let j = choose|j: int| 0 <= j < first.len() && first[j] == second[i];
            assert(covers(frame, first[j], x, y));
        }
    }
}

} // verus!
