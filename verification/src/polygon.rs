//! Filling the interior of polygons.

use vstd::prelude::*;
use crate::arith::lemma_scaled_index_range;
use crate::generator::DefaultGridGenerator;
use crate::grid::{Frame, TileGrid};
use crate::paint::{
    has_dimensions, lemma_paint_dimensions, lemma_paint_push, lemma_paint_weight,
    lemma_weight_bound, paint, paint_count, path_in_bounds,
};
use crate::tile::Tile;

verus! {

/// Whether the ray that leaves the point `(lat, lon)` towards growing
/// longitude crosses the edge from `a` to `b`: the ends of the edge lie on
/// different sides of the point's latitude, and the edge passes that
/// latitude at a longitude beyond the point's. The comparison of the two
/// longitudes is exact: it is made on the cross products.
pub open spec fn ray_crosses(lat: int, lon: int, a: (i32, i32), b: (i32, i32)) -> bool {
    (a.0 > lat) != (b.0 > lat) && if b.0 > a.0 {
        (lon - a.1) * (b.0 - a.0) < (b.1 - a.1) * (lat - a.0)
    } else {
        (lon - a.1) * (b.0 - a.0) > (b.1 - a.1) * (lat - a.0)
    }
}

/// The vertex before vertex `i` of a polygon of `n` vertices, the last
/// vertex coming before the first.
pub open spec fn previous_vertex(i: int, n: int) -> int {
    if i == 0 {
        n - 1
    } else {
        i - 1
    }
}

/// Whether the ray from the point crosses an odd number of the first
/// `upto` edges of the polygon, edge `i` being the one that ends at
/// vertex `i`.
pub open spec fn crossings_odd(lat: int, lon: int, polygon: Seq<(i32, i32)>, upto: int) -> bool
    decreases upto,
{
    if upto <= 0 {
        false
    } else {
        crossings_odd(lat, lon, polygon, upto - 1) != ray_crosses(
            lat,
            lon,
            polygon[upto - 1],
            polygon[previous_vertex(upto - 1, polygon.len() as int)],
        )
    }
}

/// Whether the point lies inside the polygon: a ray from it crosses the
/// outline an odd number of times.
pub open spec fn inside_polygon(lat: int, lon: int, polygon: Seq<(i32, i32)>) -> bool {
    crossings_odd(lat, lon, polygon, polygon.len() as int)
}

/// The smaller of two integers.
pub open spec fn least(a: int, b: int) -> int {
    if a < b {
        a
    } else {
        b
    }
}

/// The greater of two integers.
pub open spec fn greatest(a: int, b: int) -> int {
    if a < b {
        b
    } else {
        a
    }
}

/// The rectangle of cells round the cells of the first `upto` points, as
/// least column, greatest column, least row and greatest row. Points
/// outside the bounding box of the grid do not count; `None` if none
/// counts.
pub open spec fn mapped_extent(frame: Frame, points: Seq<(i32, i32)>, upto: int) -> Option<
    (int, int, int, int),
>
    decreases upto,
{
    if upto <= 0 {
        None
    } else {
        let rest = mapped_extent(frame, points, upto - 1);
        match frame.cell_of(points[upto - 1].0 as int, points[upto - 1].1 as int) {
            None => rest,
            Some((x, y)) => match rest {
                None => Some((x, x, y, y)),
                Some((min_x, max_x, min_y, max_y)) => Some(
                    (least(min_x, x), greatest(max_x, x), least(min_y, y), greatest(max_y, y)),
                ),
            },
        }
    }
}

/// Whether the centre of a cell lies inside the polygon.
pub open spec fn centre_inside(frame: Frame, polygon: Seq<(i32, i32)>, x: int, y: int) -> bool {
    match frame.center_of(x, y) {
        Some((lat, lon)) => inside_polygon(lat, lon, polygon),
        None => false,
    }
}

/// The cells of row `y` from column `from` up to but without column `to`
/// whose centres lie inside the polygon, from west to east.
pub open spec fn row_fill(frame: Frame, polygon: Seq<(i32, i32)>, y: int, from: int, to: int) -> Seq<
    (int, int),
>
    decreases to - from,
{
    if to <= from {
        Seq::empty()
    } else {
        row_fill(frame, polygon, y, from, to - 1) + if centre_inside(frame, polygon, to - 1, y) {
            seq![(to - 1, y)]
        } else {
            Seq::empty()
        }
    }
}

/// The cells of the rows from `y_from` up to but without `y_to`, between
/// the columns `x_from` and `x_to`, whose centres lie inside the polygon,
/// row by row.
pub open spec fn rows_fill(
    frame: Frame,
    polygon: Seq<(i32, i32)>,
    x_from: int,
    x_to: int,
    y_from: int,
    y_to: int,
) -> Seq<(int, int)>
    decreases y_to - y_from,
{
    if y_to <= y_from {
        Seq::empty()
    } else {
        rows_fill(frame, polygon, x_from, x_to, y_from, y_to - 1) + row_fill(
            frame,
            polygon,
            y_to - 1,
            x_from,
            x_to,
        )
    }
}

/// The cells that filling the polygon offers the tile to: those cells of
/// the rectangle round the polygon's own cells whose centres lie inside
/// the polygon, row by row.
pub open spec fn fill_cells(frame: Frame, polygon: Seq<(i32, i32)>) -> Seq<(int, int)> {
    match mapped_extent(frame, polygon, polygon.len() as int) {
        None => Seq::empty(),
        Some((min_x, max_x, min_y, max_y)) => rows_fill(
            frame,
            polygon,
            min_x,
            max_x + 1,
            min_y,
            max_y + 1,
        ),
    }
}

/// The rectangle round the cells of a polygon lies in the grid.
pub proof fn lemma_extent_in_bounds(frame: Frame, points: Seq<(i32, i32)>, upto: int)
    requires
        frame.width > 0,
        frame.height > 0,
        0 <= upto <= points.len(),
    ensures
        mapped_extent(frame, points, upto) matches Some((min_x, max_x, min_y, max_y)) ==> 0
            <= min_x <= max_x < frame.width && 0 <= min_y <= max_y < frame.height,
    decreases upto,
{
    if upto > 0 {
        lemma_extent_in_bounds(frame, points, upto - 1);
        let (lat, lon) = points[upto - 1];
        if frame.bounding_box.contains_spec(lat as int, lon as int) {
            lemma_scaled_index_range(
                lon - frame.bounding_box.west,
                frame.bounding_box.width_spec(),
                frame.width,
            );
            lemma_scaled_index_range(
                frame.bounding_box.north - lat,
                frame.bounding_box.height_spec(),
                frame.height,
            );
        }
    }
}

/// The cells that fill a row lie in that row between the two columns.
pub proof fn lemma_row_fill_bounds(
    frame: Frame,
    polygon: Seq<(i32, i32)>,
    y: int,
    from: int,
    to: int,
)
    ensures
        forall|k: int|
            0 <= k < row_fill(frame, polygon, y, from, to).len() ==> from <= (#[trigger] row_fill(
                frame,
                polygon,
                y,
                from,
                to,
            )[k]).0 < to && row_fill(frame, polygon, y, from, to)[k].1 == y,
    decreases to - from,
{
    if to > from {
        lemma_row_fill_bounds(frame, polygon, y, from, to - 1);
        let before = row_fill(frame, polygon, y, from, to - 1);
        let all = row_fill(frame, polygon, y, from, to);
        assert forall|k: int| 0 <= k < all.len() implies from <= (#[trigger] all[k]).0 < to
            && all[k].1 == y by {
            if k < before.len() {
                assert(all[k] == before[k]);
            }
        }
    }
}

/// The cells that fill a rectangle lie in the rectangle.
pub proof fn lemma_rows_fill_bounds(
    frame: Frame,
    polygon: Seq<(i32, i32)>,
    x_from: int,
    x_to: int,
    y_from: int,
    y_to: int,
)
    ensures
        forall|k: int|
            0 <= k < rows_fill(frame, polygon, x_from, x_to, y_from, y_to).len() ==> x_from <= (
            #[trigger] rows_fill(frame, polygon, x_from, x_to, y_from, y_to)[k]).0 < x_to && y_from
                <= rows_fill(frame, polygon, x_from, x_to, y_from, y_to)[k].1 < y_to,
    decreases y_to - y_from,
{
    if y_to > y_from {
        lemma_rows_fill_bounds(frame, polygon, x_from, x_to, y_from, y_to - 1);
        lemma_row_fill_bounds(frame, polygon, y_to - 1, x_from, x_to);
        let before = rows_fill(frame, polygon, x_from, x_to, y_from, y_to - 1);
        let row = row_fill(frame, polygon, y_to - 1, x_from, x_to);
        let all = rows_fill(frame, polygon, x_from, x_to, y_from, y_to);
        assert forall|k: int| 0 <= k < all.len() implies x_from <= (#[trigger] all[k]).0 < x_to
            && y_from <= all[k].1 < y_to by {
            if k < before.len() {
                assert(all[k] == before[k]);
            } else {
                assert(all[k] == row[k - before.len()]);
            }
        }
    }
}

/// A cell is among those that fill a row exactly if it lies in the row
/// between the two columns and its centre lies inside the polygon.
pub proof fn lemma_row_fill_contains(
    frame: Frame,
    polygon: Seq<(i32, i32)>,
    y: int,
    from: int,
    to: int,
    cell: (int, int),
)
    ensures
        row_fill(frame, polygon, y, from, to).contains(cell) <==> (cell.1 == y && from <= cell.0
            < to && centre_inside(frame, polygon, cell.0, y)),
    decreases to - from,
{
    if to > from {
        lemma_row_fill_contains(frame, polygon, y, from, to - 1, cell);
        let before = row_fill(frame, polygon, y, from, to - 1);
        let all = row_fill(frame, polygon, y, from, to);
        if all.contains(cell) {
            let k = choose|k: int| 0 <= k < all.len() && all[k] == cell;
            if k < before.len() {
                assert(before[k] == cell);
            }
        }
        if before.contains(cell) {
            let k = choose|k: int| 0 <= k < before.len() && before[k] == cell;
            assert(all[k] == cell);
        }
        if centre_inside(frame, polygon, to - 1, y) {
            assert(all[before.len() as int] == (to - 1, y));
        }
    }
}

/// A cell is among those that fill a rectangle exactly if it lies in the
/// rectangle and its centre lies inside the polygon.
pub proof fn lemma_rows_fill_contains(
    frame: Frame,
    polygon: Seq<(i32, i32)>,
    x_from: int,
    x_to: int,
    y_from: int,
    y_to: int,
    cell: (int, int),
)
    ensures
        rows_fill(frame, polygon, x_from, x_to, y_from, y_to).contains(cell) <==> (x_from <= cell.0
            < x_to && y_from <= cell.1 < y_to && centre_inside(frame, polygon, cell.0, cell.1)),
    decreases y_to - y_from,
{
    if y_to > y_from {
        lemma_rows_fill_contains(frame, polygon, x_from, x_to, y_from, y_to - 1, cell);
        lemma_row_fill_contains(frame, polygon, y_to - 1, x_from, x_to, cell);
        let before = rows_fill(frame, polygon, x_from, x_to, y_from, y_to - 1);
        let row = row_fill(frame, polygon, y_to - 1, x_from, x_to);
        let all = rows_fill(frame, polygon, x_from, x_to, y_from, y_to);
        if all.contains(cell) {
            let k = choose|k: int| 0 <= k < all.len() && all[k] == cell;
            if k < before.len() {
                assert(before[k] == cell);
            } else {
                assert(row[k - before.len()] == cell);
            }
        }
        if before.contains(cell) {
            let k = choose|k: int| 0 <= k < before.len() && before[k] == cell;
            assert(all[k] == cell);
        }
        if row.contains(cell) {
            let k = choose|k: int| 0 <= k < row.len() && row[k] == cell;
            assert(all[before.len() + k] == cell);
        }
    }
}

/// Every cell that filling a polygon offers the tile to lies in the grid.
pub proof fn lemma_fill_in_bounds(frame: Frame, polygon: Seq<(i32, i32)>)
    requires
        frame.width > 0,
        frame.height > 0,
    ensures
        path_in_bounds(fill_cells(frame, polygon), frame.width, frame.height),
{
    lemma_extent_in_bounds(frame, polygon, polygon.len() as int);
    match mapped_extent(frame, polygon, polygon.len() as int) {
        None => {},
        Some((min_x, max_x, min_y, max_y)) => {
            lemma_rows_fill_bounds(frame, polygon, min_x, max_x + 1, min_y, max_y + 1);
        },
    }
}

impl DefaultGridGenerator {
    /// Whether the point lies inside the polygon, by casting a ray from it
    /// and counting the edges that the ray crosses. A point on the outline
    /// may count as inside or as outside.
    pub fn point_in_polygon(&self, lat: i32, lon: i32, polygon: &Vec<(i32, i32)>) -> (r: bool)
        ensures
            r == inside_polygon(lat as int, lon as int, polygon@),
    {
        let n = polygon.len();
        let mut inside = false;
        let mut i: usize = 0;
        while i < n
            invariant
                n == polygon@.len(),
                i <= n,
                inside == crossings_odd(lat as int, lon as int, polygon@, i as int),
            decreases n - i,
        {
            let j: usize = if i == 0 {
                n - 1
            } else {
                i - 1
            };
            let (lat_i, lon_i) = polygon[i];
            let (lat_j, lon_j) = polygon[j];
            if (lat_i > lat) != (lat_j > lat) {
                let rise: i128 = lat_j as i128 - lat_i as i128;
                let run: i128 = lon_j as i128 - lon_i as i128;
                let east: i128 = lon as i128 - lon_i as i128;
                let north: i128 = lat as i128 - lat_i as i128;
                assert(-0x1_0000_0000_0000_0000 <= east * rise <= 0x1_0000_0000_0000_0000)
                    by (nonlinear_arith)
                    requires
                        -0x1_0000_0000 <= east <= 0x1_0000_0000,
                        -0x1_0000_0000 <= rise <= 0x1_0000_0000,
                ;
                assert(-0x1_0000_0000_0000_0000 <= run * north <= 0x1_0000_0000_0000_0000)
                    by (nonlinear_arith)
                    requires
                        -0x1_0000_0000 <= run <= 0x1_0000_0000,
                        -0x1_0000_0000 <= north <= 0x1_0000_0000,
                ;
                let left: i128 = east * rise;
                let right: i128 = run * north;
                let crosses = if rise > 0 {
                    left < right
                } else {
                    left > right
                };
                if crosses {
                    inside = !inside;
                }
            }
            i += 1;
        }
        inside
    }

    /// The rectangle of cells round the cells of the points, as least
    /// column, greatest column, least row and greatest row; `None` if no
    /// point lies in the bounding box of the grid.
    pub fn geometry_extent(&self, geometry: &Vec<(i32, i32)>, grid: &TileGrid) -> (r: Option<
        (usize, usize, usize, usize),
    >)
        requires
            grid.width > 0,
            grid.height > 0,
        ensures
            match r {
                Some((a, b, c, d)) => mapped_extent(
                    grid.frame(),
                    geometry@,
                    geometry@.len() as int,
                ) == Some((a as int, b as int, c as int, d as int)),
                None => mapped_extent(grid.frame(), geometry@, geometry@.len() as int) is None,
            },
    {
        let mut extent: Option<(usize, usize, usize, usize)> = None;
        let mut i: usize = 0;
        while i < geometry.len()
            invariant
                grid.width > 0,
                grid.height > 0,
                i <= geometry@.len(),
                match extent {
                    Some((a, b, c, d)) => mapped_extent(grid.frame(), geometry@, i as int) == Some(
                        (a as int, b as int, c as int, d as int),
                    ),
                    None => mapped_extent(grid.frame(), geometry@, i as int) is None,
                },
            decreases geometry@.len() - i,
        {
            let (lat, lon) = geometry[i];
            if let Some((x, y)) = grid.geo_to_grid(lat, lon) {
                extent = match extent {
                    None => Some((x, x, y, y)),
                    Some((min_x, max_x, min_y, max_y)) => Some(
                        (
                            if x < min_x {
                                x
                            } else {
                                min_x
                            },
                            if x > max_x {
                                x
                            } else {
                                max_x
                            },
                            if y < min_y {
                                y
                            } else {
                                min_y
                            },
                            if y > max_y {
                                y
                            } else {
                                max_y
                            },
                        ),
                    ),
                };
            }
            i += 1;
        }
        extent
    }

    /// Fills a polygon: offers `tile` to every cell of the rectangle round
    /// the polygon's own cells whose centre lies inside the polygon, row by
    /// row, and returns how many cells took it.
    pub fn fill_polygon(&self, geometry: &Vec<(i32, i32)>, tile: &Tile, grid: &mut TileGrid) -> (r:
        usize)
        requires
            old(grid).wf(),
            old(grid).width > 0,
            old(grid).height > 0,
        ensures
            final(grid).wf(),
            final(grid).same_frame(old(grid)),
            final(grid).cells() == paint(
                old(grid).cells(),
                fill_cells(old(grid).frame(), geometry@),
                tile@,
            ),
            r == paint_count(old(grid).cells(), fill_cells(old(grid).frame(), geometry@), tile@),
    {
        let ghost frame = grid.frame();
        let ghost start = grid.cells();
        let ghost polygon = geometry@;
        proof {
            grid.lemma_cells();
            lemma_extent_in_bounds(frame, polygon, polygon.len() as int);
        }
        let (min_x, max_x, min_y, max_y) = match self.geometry_extent(geometry, grid) {
            None => {
                return 0;
            },
            Some(extent) => extent,
        };
        let mut count: usize = 0;
        let ghost mut done: Seq<(int, int)> = Seq::empty();
        let mut y: usize = min_y;
        while y <= max_y
            invariant
                grid.wf(),
                grid.same_frame(old(grid)),
                frame == old(grid).frame(),
                polygon == geometry@,
                min_x <= max_x < grid.width,
                min_y <= y <= max_y + 1,
                max_y < grid.height,
                has_dimensions(start, grid.width as int, grid.height as int),
                path_in_bounds(done, grid.width as int, grid.height as int),
                done == rows_fill(frame, polygon, min_x as int, max_x + 1, min_y as int, y as int),
                grid.cells() == paint(start, done, tile@),
                count == paint_count(start, done, tile@),
            decreases max_y + 1 - y,
        {
            let ghost above = done;
            let mut x: usize = min_x;
            proof {
                assert(done =~= above + row_fill(frame, polygon, y as int, min_x as int, x as int));
            }
            while x <= max_x
                invariant
                    grid.wf(),
                    grid.same_frame(old(grid)),
                    frame == old(grid).frame(),
                    polygon == geometry@,
                    min_x <= x <= max_x + 1,
                    max_x < grid.width,
                    min_y <= y <= max_y < grid.height,
                    has_dimensions(start, grid.width as int, grid.height as int),
                    path_in_bounds(done, grid.width as int, grid.height as int),
                    done == above + row_fill(frame, polygon, y as int, min_x as int, x as int),
                    grid.cells() == paint(start, done, tile@),
                    count == paint_count(start, done, tile@),
                decreases max_x + 1 - x,
            {
                let inside = match grid.grid_to_geo(x, y) {
                    Some((lat, lon)) => self.point_in_polygon(lat, lon, geometry),
                    None => false,
                };
                assert(inside == centre_inside(frame, polygon, x as int, y as int));
                if inside {
                    proof {
                        let next = done.push((x as int, y as int));
                        lemma_paint_push(start, done, (x as int, y as int), tile@);
                        assert(path_in_bounds(next, grid.width as int, grid.height as int)) by {
                            assert forall|k: int| 0 <= k < next.len() implies 0 <= (
                            #[trigger] next[k]).0 < grid.width && 0 <= next[k].1
                                < grid.height by {
                                if k < done.len() {
                                    assert(next[k] == done[k]);
                                }
                            }
                        }
                        lemma_paint_weight(
                            start,
                            next,
                            tile@,
                            grid.width as int,
                            grid.height as int,
                        );
                        lemma_paint_dimensions(
                            start,
                            next,
                            tile@,
                            grid.width as int,
                            grid.height as int,
                        );
                        lemma_weight_bound(
                            paint(start, next, tile@),
                            grid.width as int,
                            grid.height as int,
                        );
                    }
                    let written = grid.set_tile_with_priority(x, y, tile.clone());
                    match written {
                        Ok(true) => {
                            count = count + 1;
                        },
                        _ => {},
                    }
                    proof {
                        done = done.push((x as int, y as int));
                    }
                }
                proof {
                    assert(done =~= above + row_fill(
                        frame,
                        polygon,
                        y as int,
                        min_x as int,
                        x + 1,
                    ));
                }
                x = x + 1;
            }
            y = y + 1;
        }
        count
    }
}

} // verus!
