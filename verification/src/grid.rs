//! The grid of tiles and the mapping between coordinates and cells.

use vstd::prelude::*;
use vstd::string::*;
use crate::arith::{
    center_offset, floor_div, lemma_center_offset_range, lemma_product_bound,
    lemma_quotient_bounds, lemma_scaled_index_range, scaled_index,
};
use crate::clock::timestamp_now;
use crate::region::BoundingBox;
use crate::tags::TagMap;
use crate::text::{decimal, usize_to_string};
use crate::tile::{Tile, TileView};

verus! {

/// What is recorded about how a grid was generated.
#[derive(Debug)]
pub struct GridMetadata {
    /// When the grid was created, as an RFC 3339 timestamp.
    pub generated_at: String,
    /// Number of elements processed.
    pub elements_processed: u32,
    /// Number of tile writes that took effect.
    pub tiles_populated: usize,
    /// Generation time in milliseconds.
    pub generation_time_ms: u64,
    /// Name of the algorithm that filled the grid.
    pub algorithm: String,
    /// Further key/value pairs.
    pub extra: TagMap,
}

impl Clone for GridMetadata {
    fn clone(&self) -> (r: Self)
        ensures
            r.generated_at@ == self.generated_at@,
            r.elements_processed == self.elements_processed,
            r.tiles_populated == self.tiles_populated,
            r.generation_time_ms == self.generation_time_ms,
            r.algorithm@ == self.algorithm@,
            r.extra@ == self.extra@,
    {
        GridMetadata {
            generated_at: self.generated_at.clone(),
            elements_processed: self.elements_processed,
            tiles_populated: self.tiles_populated,
            generation_time_ms: self.generation_time_ms,
            algorithm: self.algorithm.clone(),
            extra: self.extra.clone(),
        }
    }
}

/// A grid of tiles over a geographic area. Row 0 is the northern edge,
/// column 0 the western edge.
#[derive(Debug)]
pub struct TileGrid {
    /// The tiles, row by row from the north, each row from the west.
    pub tiles: Vec<Vec<Tile>>,
    /// The number of columns.
    pub width: usize,
    /// The number of rows.
    pub height: usize,
    /// The area that the grid covers.
    pub bounding_box: BoundingBox,
    /// Approximate edge length of a tile in millimetres.
    pub mm_per_tile: u32,
    /// How the grid was generated.
    pub metadata: GridMetadata,
}

/// Whether a grid of the given dimensions can be stored: a tile takes
/// more than eleven bytes, so more than an eleventh of the address space
/// in tiles cannot exist.
pub open spec fn fits_memory(width: int, height: int) -> bool {
    width * height * 11 <= usize::MAX
}

/// The bounding box and the dimensions of a grid: what decides which cell
/// a point falls in.
pub struct Frame {
    pub bounding_box: BoundingBox,
    pub width: int,
    pub height: int,
}

impl Frame {
    /// Whether column `x` of row `y` is a cell.
    pub open spec fn in_bounds(self, x: int, y: int) -> bool {
        0 <= x < self.width && 0 <= y < self.height
    }

    /// The cell that contains a point: `None` outside the bounding box,
    /// else the column counted from the west and the row counted from the
    /// north.
    pub open spec fn cell_of(self, lat: int, lon: int) -> Option<(int, int)> {
        if self.bounding_box.contains_spec(lat, lon) {
            Some(
                (
                    scaled_index(
                        lon - self.bounding_box.west,
                        self.bounding_box.width_spec(),
                        self.width,
                    ),
                    scaled_index(
                        self.bounding_box.north - lat,
                        self.bounding_box.height_spec(),
                        self.height,
                    ),
                ),
            )
        } else {
            None
        }
    }

    /// The latitude and longitude of the centre of a cell: `None` outside
    /// the grid.
    pub open spec fn center_of(self, x: int, y: int) -> Option<(int, int)> {
        if self.in_bounds(x, y) {
            Some(
                (
                    self.bounding_box.north - center_offset(
                        y,
                        self.bounding_box.height_spec(),
                        self.height,
                    ),
                    self.bounding_box.west + center_offset(
                        x,
                        self.bounding_box.width_spec(),
                        self.width,
                    ),
                ),
            )
        } else {
            None
        }
    }
}

/// The views of a row of tiles.
pub open spec fn row_view(row: Seq<Tile>) -> Seq<TileView> {
    Seq::new(row.len(), |x: int| row[x]@)
}

/// The text of the error for a cell outside the grid.
pub open spec fn out_of_bounds_message(x: nat, y: nat, width: nat, height: nat) -> Seq<char> {
    "Coordinates ("@ + decimal(x) + ", "@ + decimal(y) + ") out of bounds for grid "@ + decimal(
        width,
    ) + "x"@ + decimal(height)
}

/// Builds the text of the error for a cell outside the grid.
pub fn out_of_bounds_error(x: usize, y: usize, width: usize, height: usize) -> (r: String)
    ensures
        r@ == out_of_bounds_message(x as nat, y as nat, width as nat, height as nat),
{
    let mut s = String::from_str("Coordinates (");
    s.append(usize_to_string(x).as_str());
    s.append(", ");
    s.append(usize_to_string(y).as_str());
    s.append(") out of bounds for grid ");
    s.append(usize_to_string(width).as_str());
    s.append("x");
    s.append(usize_to_string(height).as_str());
    s
}

/// The rows `cells` with the tile at column `x` of row `y` replaced.
pub open spec fn with_cell(cells: Seq<Seq<TileView>>, x: int, y: int, tile: TileView) -> Seq<
    Seq<TileView>,
> {
    cells.update(y, cells[y].update(x, tile))
}

/// The rows `cells` after an attempt to write `tile` at column `x` of row
/// `y`: the write takes effect only where the tile there yields.
pub open spec fn with_cell_by_priority(
    cells: Seq<Seq<TileView>>,
    x: int,
    y: int,
    tile: TileView,
) -> Seq<Seq<TileView>> {
    if cells[y][x].yields_to(tile) {
        with_cell(cells, x, y, tile)
    } else {
        cells
    }
}

impl TileGrid {
    /// The number of columns.
    pub open spec fn width_spec(&self) -> usize {
        self.width
    }

    /// The number of rows.
    pub open spec fn height_spec(&self) -> usize {
        self.height
    }

    /// The tiles, row by row from the north, each row from the west.
    pub open spec fn cells(&self) -> Seq<Seq<TileView>> {
        Seq::new(self.tiles@.len(), |y: int| row_view(self.tiles@[y]@))
    }

    /// Well-formedness: the grid holds `height` rows of `width` tiles, and
    /// its tiles, each of which takes more than eleven bytes, fit the
    /// address space.
    pub open spec fn wf(&self) -> bool {
        &&& self.tiles@.len() == self.height
        &&& forall|y: int| 0 <= y < self.height ==> (#[trigger] self.tiles@[y])@.len() == self.width
        &&& fits_memory(self.width as int, self.height as int)
    }

    /// The part of the grid that the coordinate mapping depends on.
    pub open spec fn frame(&self) -> Frame {
        Frame {
            bounding_box: self.bounding_box,
            width: self.width as int,
            height: self.height as int,
        }
    }

    /// The model of a well-formed grid has the recorded dimensions.
    pub proof fn lemma_cells(&self)
        requires
            self.wf(),
        ensures
            self.cells().len() == self.height,
            forall|y: int| 0 <= y < self.height ==> (#[trigger] self.cells()[y]).len() == self.width,
    {
    }

    /// Whether column `x` of row `y` is a cell of the grid.
    pub open spec fn in_bounds(&self, x: int, y: int) -> bool {
        0 <= x < self.width_spec() && 0 <= y < self.height_spec()
    }

    /// The tile at column `x` of row `y`.
    pub open spec fn at(&self, x: int, y: int) -> TileView {
        self.cells()[y][x]
    }

    /// Whether two grids agree in everything but their tiles.
    pub open spec fn same_frame(&self, other: &TileGrid) -> bool {
        &&& self.frame() == other.frame()
        &&& self.mm_per_tile == other.mm_per_tile
        &&& self.metadata == other.metadata
    }

    /// The cell that contains a point, or `None` outside the bounding box.
    pub open spec fn geo_to_grid_spec(&self, lat: int, lon: int) -> Option<(int, int)> {
        self.frame().cell_of(lat, lon)
    }

    /// The latitude and longitude of the centre of a cell, or `None`
    /// outside the grid.
    pub open spec fn grid_to_geo_spec(&self, x: int, y: int) -> Option<(int, int)> {
        self.frame().center_of(x, y)
    }

    /// A grid of `width` by `height` empty tiles over `bounding_box`.
    pub fn new(width: usize, height: usize, bounding_box: BoundingBox, mm_per_tile: u32) -> (r:
        Self)
        requires
            fits_memory(width as int, height as int),
        ensures
            r.wf(),
            r.width_spec() == width,
            r.height_spec() == height,
            forall|x: int, y: int| r.in_bounds(x, y) ==> r.at(x, y) == TileView::empty(),
            r.bounding_box == bounding_box,
            r.mm_per_tile == mm_per_tile,
            r.metadata.elements_processed == 0,
            r.metadata.tiles_populated == 0,
            r.metadata.generation_time_ms == 0,
            r.metadata.algorithm@ == "default"@,
            r.metadata.extra@ == Map::<Seq<char>, Seq<char>>::empty(),
    {
        let mut tiles: Vec<Vec<Tile>> = Vec::new();
        let mut y: usize = 0;
        while y < height
            invariant
                y <= height,
                tiles@.len() == y,
                forall|j: int| 0 <= j < y ==> (#[trigger] tiles@[j])@.len() == width,
                forall|j: int, i: int|
                    0 <= j < y && 0 <= i < width ==> (#[trigger] tiles@[j]@[i])@
                        == TileView::empty(),
            decreases height - y,
        {
            let mut row: Vec<Tile> = Vec::new();
            let mut x: usize = 0;
            while x < width
                invariant
                    x <= width,
                    row@.len() == x,
                    forall|i: int| 0 <= i < x ==> (#[trigger] row@[i])@ == TileView::empty(),
                decreases width - x,
            {
                row.push(Tile::default());
                x += 1;
            }
            tiles.push(row);
            y += 1;
        }
        let r = TileGrid {
            tiles,
            width,
            height,
            bounding_box,
            mm_per_tile,
            metadata: GridMetadata {
                generated_at: timestamp_now(),
                elements_processed: 0,
                tiles_populated: 0,
                generation_time_ms: 0,
                algorithm: String::from_str("default"),
                extra: TagMap::new(),
            },
        };
        assert forall|x: int, y: int| r.in_bounds(x, y) implies r.at(x, y)
            == TileView::empty() by {
            assert(r.cells()[y] == row_view(r.tiles@[y]@));
            assert(r.tiles@[y]@[x]@ == TileView::empty());
        }
        r
    }

    /// The dimensions as width and height.
    pub fn dimensions(&self) -> (r: (usize, usize))
        ensures
            r == (self.width_spec(), self.height_spec()),
    {
        (self.width, self.height)
    }

    /// The number of tiles.
    pub fn tile_count(&self) -> (r: usize)
        requires
            self.wf(),
        ensures
            r == self.width_spec() * self.height_spec(),
    {
        assert(self.width * self.height <= self.width * self.height * 11) by (nonlinear_arith);
        self.width * self.height
    }

    /// The number of rows.
    pub fn rows(&self) -> (r: usize)
        ensures
            r == self.height_spec(),
    {
        self.height
    }

    /// The number of columns.
    pub fn cols(&self) -> (r: usize)
        ensures
            r == self.width_spec(),
    {
        self.width
    }

    /// The tile at column `x` of row `y`, or `None` outside the grid.
    pub fn get_tile(&self, x: usize, y: usize) -> (r: Option<&Tile>)
        requires
            self.wf(),
        ensures
            r is Some == self.in_bounds(x as int, y as int),
            r matches Some(t) ==> t@ == self.at(x as int, y as int),
    {
        if x < self.width && y < self.height {
            assert(self.cells()[y as int] == row_view(self.tiles@[y as int]@));
            Some(&self.tiles[y][x])
        } else {
            None
        }
    }

    /// Puts `tile` at column `x` of row `y`, whatever is there. Outside
    /// the grid nothing changes and the error says so.
    pub fn set_tile(&mut self, x: usize, y: usize, tile: Tile) -> (r: Result<(), String>)
        requires
            old(self).wf(),
        ensures
            final(self).wf(),
            final(self).same_frame(old(self)),
            match r {
                Ok(_) => old(self).in_bounds(x as int, y as int) && final(self).cells()
                    == with_cell(old(self).cells(), x as int, y as int, tile@),
                Err(msg) => !old(self).in_bounds(x as int, y as int) && final(self).cells() == old(
                    self,
                ).cells() && msg@ == out_of_bounds_message(
                    x as nat,
                    y as nat,
                    old(self).width_spec() as nat,
                    old(self).height_spec() as nat,
                ),
            },
    {
        if x >= self.width || y >= self.height {
            return Err(out_of_bounds_error(x, y, self.width, self.height));
        }
        self.put(x, y, tile);
        Ok(())
    }

    /// Replaces the tile of a cell of the grid.
    fn put(&mut self, x: usize, y: usize, tile: Tile)
        requires
            old(self).wf(),
            old(self).in_bounds(x as int, y as int),
        ensures
            final(self).wf(),
            final(self).same_frame(old(self)),
            final(self).cells() == with_cell(old(self).cells(), x as int, y as int, tile@),
    {
        let ghost before = self.tiles@;
        let ghost tile_view = tile@;
        let mut row: Vec<Tile> = Vec::new();
        core::mem::swap(&mut self.tiles[y], &mut row);
        row.set(x, tile);
        core::mem::swap(&mut self.tiles[y], &mut row);
        proof {
            let after = self.tiles@;
            assert(after.len() == before.len());
            assert forall|j: int| 0 <= j < self.height implies (#[trigger] after[j])@.len()
                == self.width by {
                if j != y {
                    assert(after[j] == before[j]);
                }
            }
            let expected = with_cell(old(self).cells(), x as int, y as int, tile_view);
            assert(self.cells().len() == expected.len());
            assert forall|j: int| 0 <= j < self.cells().len() implies self.cells()[j]
                == expected[j] by {
                if j == y {
                    assert(self.cells()[j] =~= expected[j]);
                } else {
                    assert(after[j] == before[j]);
                    assert(self.cells()[j] =~= old(self).cells()[j]);
                }
            }
            assert(self.cells() =~= expected);
        }
    }

    /// Puts `tile` at column `x` of row `y` if its priority is strictly
    /// higher than that of the tile there, and says whether it did so.
    /// Outside the grid nothing changes and the error says so.
    pub fn set_tile_with_priority(&mut self, x: usize, y: usize, tile: Tile) -> (r: Result<
        bool,
        String,
    >)
        requires
            old(self).wf(),
        ensures
            final(self).wf(),
            final(self).same_frame(old(self)),
            match r {
                Ok(written) => old(self).in_bounds(x as int, y as int) && written == old(self).at(
                    x as int,
                    y as int,
                ).yields_to(tile@) && final(self).cells() == with_cell_by_priority(
                    old(self).cells(),
                    x as int,
                    y as int,
                    tile@,
                ),
                Err(msg) => !old(self).in_bounds(x as int, y as int) && final(self).cells() == old(
                    self,
                ).cells() && msg@ == out_of_bounds_message(
                    x as nat,
                    y as nat,
                    old(self).width_spec() as nat,
                    old(self).height_spec() as nat,
                ),
            },
    {
        if x >= self.width || y >= self.height {
            return Err(out_of_bounds_error(x, y, self.width, self.height));
        }
        assert(self.cells()[y as int] == row_view(self.tiles@[y as int]@));
        if self.tiles[y][x].can_be_overwritten_by(&tile) {
            self.put(x, y, tile);
            Ok(true)
        } else {
            Ok(false)
        }
    }

    /// The cell that contains a point, or `None` when the point lies
    /// outside the bounding box.
    pub fn geo_to_grid(&self, lat: i32, lon: i32) -> (r: Option<(usize, usize)>)
        requires
            self.width_spec() > 0,
            self.height_spec() > 0,
        ensures
            match r {
                Some((x, y)) => self.geo_to_grid_spec(lat as int, lon as int) == Some(
                    (x as int, y as int),
                ) && self.in_bounds(x as int, y as int),
                None => self.geo_to_grid_spec(lat as int, lon as int) is None,
            },
            r is Some == self.bounding_box.contains_spec(lat as int, lon as int),
    {
        if !self.bounding_box.contains(lat, lon) {
            return None;
        }
        let x = Self::scale(
            lon as i64 - self.bounding_box.west as i64,
            self.bounding_box.width(),
            self.width,
        );
        let y = Self::scale(
            self.bounding_box.north as i64 - lat as i64,
            self.bounding_box.height(),
            self.height,
        );
        Some((x, y))
    }

    /// The cell index of an offset into a span cut into `cells` cells.
    fn scale(offset: i64, span: i64, cells: usize) -> (r: usize)
        requires
            cells > 0,
            0 <= offset <= span,
        ensures
            r == scaled_index(offset as int, span as int, cells as int),
            r < cells,
    {
        proof {
            lemma_scaled_index_range(offset as int, span as int, cells as int);
        }
        if span <= 0 {
            return 0;
        }
        proof {
            lemma_product_bound(offset as int, cells as int, span as int, cells as int);
            lemma_product_bound(
                span as int,
                cells as int,
                0x7fff_ffff_ffff_ffff,
                0xffff_ffff_ffff_ffff,
            );
            lemma_quotient_bounds(offset * cells, span as int);
        }
        let q: u128 = (offset as u128 * cells as u128) / (span as u128);
        if q < cells as u128 {
            q as usize
        } else {
            cells - 1
        }
    }

    /// The latitude and longitude of the centre of a cell, or `None`
    /// outside the grid.
    pub fn grid_to_geo(&self, x: usize, y: usize) -> (r: Option<(i32, i32)>)
        ensures
            match r {
                Some((lat, lon)) => self.grid_to_geo_spec(x as int, y as int) == Some(
                    (lat as int, lon as int),
                ),
                None => self.grid_to_geo_spec(x as int, y as int) is None,
            },
            r is Some == self.in_bounds(x as int, y as int),
    {
        if x >= self.width || y >= self.height {
            return None;
        }
        let dx = Self::center(x, self.bounding_box.width(), self.width);
        let dy = Self::center(y, self.bounding_box.height(), self.height);
        let lon: i64 = self.bounding_box.west as i64 + dx;
        let lat: i64 = self.bounding_box.north as i64 - dy;
        Some((lat as i32, lon as i32))
    }

    /// The offset of the centre of cell `index` into a span cut into
    /// `cells` cells.
    fn center(index: usize, span: i64, cells: usize) -> (r: i64)
        requires
            index < cells,
            -0x1_0000_0000 <= span <= 0x1_0000_0000,
        ensures
            r == center_offset(index as int, span as int, cells as int),
            span >= 0 ==> 0 <= r <= span,
            span < 0 ==> span <= r < 0,
    {
        proof {
            lemma_center_offset_range(index as int, span as int, cells as int);
        }
        let twice: i128 = 2 * (index as i128) + 1;
        assert(-0x2_0000_0000_0000_0000_0000_0000 <= twice * span
            <= 0x2_0000_0000_0000_0000_0000_0000) by (nonlinear_arith)
            requires
                0 < twice <= 0x2_0000_0000_0000_0000,
                -0x1_0000_0000 <= span <= 0x1_0000_0000,
        ;
        let n: i128 = twice * (span as i128);
        let d: i128 = 2 * (cells as i128);
        let q: i128 = floor_div(n, d);
        q as i64
    }
}

} // verus!
