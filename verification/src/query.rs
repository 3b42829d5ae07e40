//! Read-only queries on a grid, and raw access to its tiles.

use vstd::prelude::*;
use crate::arith::{lemma_quotient_bounds, lemma_quotient_unique};
use crate::grid::{fits_memory, GridMetadata, TileGrid};
use crate::region::BoundingBox;
use crate::tile::{Tile, TileType};

verus! {

/// Whether cell `a` comes before cell `b` when the grid is read row by
/// row. Cells are given as column and row.
pub open spec fn row_major_before(a: (int, int), b: (int, int)) -> bool {
    a.1 < b.1 || (a.1 == b.1 && a.0 < b.0)
}

/// Whether all rows have the given length.
pub open spec fn rows_have_length(tiles: Seq<Vec<Tile>>, width: int) -> bool {
    forall|y: int| 0 <= y < tiles.len() ==> (#[trigger] tiles[y])@.len() == width
}

/// The length of the first row, or zero without rows.
pub open spec fn first_row_length(tiles: Seq<Vec<Tile>>) -> int {
    if tiles.len() == 0 {
        0
    } else {
        tiles[0]@.len() as int
    }
}

impl TileGrid {
    /// The grid of the given rows of tiles, or `None` if the rows are not
    /// of one length or are more than can be stored.
    pub fn from_rows(
        tiles: Vec<Vec<Tile>>,
        bounding_box: BoundingBox,
        mm_per_tile: u32,
        metadata: GridMetadata,
    ) -> (r: Option<TileGrid>)
        ensures
            r is Some == (rows_have_length(tiles@, first_row_length(tiles@)) && fits_memory(
                first_row_length(tiles@),
                tiles@.len() as int,
            )),
            r matches Some(grid) ==> {
                &&& grid.wf()
                &&& grid.tiles == tiles
                &&& grid.width == first_row_length(tiles@)
                &&& grid.height == tiles@.len()
                &&& grid.bounding_box == bounding_box
                &&& grid.mm_per_tile == mm_per_tile
                &&& grid.metadata == metadata
            },
    {
        let height: usize = tiles.len();
        let width: usize = if height == 0 {
            0
        } else {
            tiles[0].len()
        };
        let mut y: usize = 0;
        while y < height
            invariant
                y <= height,
                height == tiles@.len(),
                width == first_row_length(tiles@),
                forall|j: int| 0 <= j < y ==> (#[trigger] tiles@[j])@.len() == width,
            decreases height - y,
        {
            if tiles[y].len() != width {
                return None;
            }
            y += 1;
        }
        let limit: usize = usize::MAX / 11;
        proof {
            lemma_quotient_bounds(usize::MAX as int, 11);
        }
        if height > 0 {
            let per_row: usize = limit / height;
            proof {
                lemma_quotient_bounds(limit as int, height as int);
                if width <= per_row {
                    assert(width * height * 11 <= usize::MAX) by (nonlinear_arith)
                        requires
                            0 <= width <= per_row,
                            height * per_row <= limit,
                            11 * limit <= usize::MAX,
                            height > 0,
                    ;
                } else {
                    assert(width * height * 11 > usize::MAX) by (nonlinear_arith)
                        requires
                            width >= per_row + 1,
                            limit < height * per_row + height,
                            usize::MAX < 11 * limit + 11,
                            height > 0,
                    ;
                }
            }
            if width > per_row {
                return None;
            }
        } else {
            assert(width * height * 11 == 0) by (nonlinear_arith)
                requires
                    height == 0,
            ;
        }
        Some(TileGrid { tiles, width, height, bounding_box, mm_per_tile, metadata })
    }

    /// The cells that hold a tile of the given type, each with its column,
    /// its row and its tile, in the order of reading the grid row by row.
    pub fn tiles_of_type(&self, tile_type: &TileType) -> (r: Vec<(usize, usize, &Tile)>)
        requires
            self.wf(),
        ensures
            forall|k: int|
                0 <= k < r@.len() ==> {
                    &&& self.in_bounds((#[trigger] r@[k]).0 as int, r@[k].1 as int)
                    &&& r@[k].2@ == self.at(r@[k].0 as int, r@[k].1 as int)
                    &&& r@[k].2@.kind == tile_type@
                },
            forall|x: int, y: int|
                self.in_bounds(x, y) && (#[trigger] self.at(x, y)).kind == tile_type@ ==> exists|
                    k: int,
                |
                    0 <= k < r@.len() && (#[trigger] r@[k]).0 == x && r@[k].1 == y,
            forall|a: int, b: int|
                0 <= a < b < r@.len() ==> row_major_before(
                    ((#[trigger] r@[a]).0 as int, r@[a].1 as int),
                    ((#[trigger] r@[b]).0 as int, r@[b].1 as int),
                ),
    {
        let mut results: Vec<(usize, usize, &Tile)> = Vec::new();
        let mut y: usize = 0;
        while y < self.height
            invariant
                self.wf(),
                y <= self.height,
                forall|k: int|
                    0 <= k < results@.len() ==> {
                        &&& self.in_bounds((#[trigger] results@[k]).0 as int, results@[k].1 as int)
                        &&& results@[k].2@ == self.at(results@[k].0 as int, results@[k].1 as int)
                        &&& results@[k].2@.kind == tile_type@
                        &&& results@[k].1 < y
                    },
                forall|i: int, j: int|
                    self.in_bounds(i, j) && j < y && (#[trigger] self.at(i, j)).kind == tile_type@
                        ==> exists|k: int|
                        0 <= k < results@.len() && (#[trigger] results@[k]).0 == i && results@[k].1
                            == j,
                forall|a: int, b: int|
                    0 <= a < b < results@.len() ==> row_major_before(
                        ((#[trigger] results@[a]).0 as int, results@[a].1 as int),
                        ((#[trigger] results@[b]).0 as int, results@[b].1 as int),
                    ),
            decreases self.height - y,
        {
            let mut x: usize = 0;
            while x < self.width
                invariant
                    self.wf(),
                    y < self.height,
                    x <= self.width,
                    forall|k: int|
                        0 <= k < results@.len() ==> {
                            &&& self.in_bounds(
                                (#[trigger] results@[k]).0 as int,
                                results@[k].1 as int,
                            )
                            &&& results@[k].2@ == self.at(
                                results@[k].0 as int,
                                results@[k].1 as int,
                            )
                            &&& results@[k].2@.kind == tile_type@
                            &&& (results@[k].1 < y || (results@[k].1 == y && results@[k].0 < x))
                        },
                    forall|i: int, j: int|
                        self.in_bounds(i, j) && (j < y || (j == y && i < x)) && (
                        #[trigger] self.at(i, j)).kind == tile_type@ ==> exists|k: int|
                            0 <= k < results@.len() && (#[trigger] results@[k]).0 == i
                                && results@[k].1 == j,
                    forall|a: int, b: int|
                        0 <= a < b < results@.len() ==> row_major_before(
                            ((#[trigger] results@[a]).0 as int, results@[a].1 as int),
                            ((#[trigger] results@[b]).0 as int, results@[b].1 as int),
                        ),
                decreases self.width - x,
            {
                let tile = &self.tiles[y][x];
                let ghost before = results@;
                if tile.tile_type == *tile_type {
                    results.push((x, y, tile));
                    proof {
                        let n = before.len() as int;
                        assert(results@[n] == (x, y, tile));
                        assert forall|i: int, j: int|
                            self.in_bounds(i, j) && (j < y || (j == y && i < x + 1)) && (
                            #[trigger] self.at(i, j)).kind == tile_type@ implies exists|k: int|
                            0 <= k < results@.len() && (#[trigger] results@[k]).0 == i
                                && results@[k].1 == j by {
                            if j == y && i == x {
                                assert(results@[n].0 == i && results@[n].1 == j);
                            } else {
                                let k = choose|k: int|
                                    0 <= k < before.len() && (#[trigger] before[k]).0 == i
                                        && before[k].1 == j;
                                assert(results@[k] == before[k]);
                            }
                        }
                    }
                }
                x += 1;
            }
            y += 1;
        }
        results
    }

    /// Every cell with its column, its row and its tile, in the order of
    /// reading the grid row by row.
    pub fn iter_tiles(&self) -> (r: Vec<(usize, usize, &Tile)>)
        requires
            self.wf(),
        ensures
            r@.len() == self.width * self.height,
            forall|k: int|
                0 <= k < r@.len() ==> {
                    &&& (#[trigger] r@[k]).0 == k % (self.width as int)
                    &&& r@[k].1 == k / (self.width as int)
                    &&& r@[k].2@ == self.at(r@[k].0 as int, r@[k].1 as int)
                },
    {
        let mut results: Vec<(usize, usize, &Tile)> = Vec::new();
        let mut y: usize = 0;
        assert(0 * self.width == 0) by (nonlinear_arith);
        while y < self.height
            invariant
                self.wf(),
                y <= self.height,
                results@.len() == y * self.width,
                forall|k: int|
                    0 <= k < results@.len() ==> {
                        &&& (#[trigger] results@[k]).0 == k % (self.width as int)
                        &&& results@[k].1 == k / (self.width as int)
                        &&& results@[k].2@ == self.at(results@[k].0 as int, results@[k].1 as int)
                    },
            decreases self.height - y,
        {
            let mut x: usize = 0;
            while x < self.width
                invariant
                    self.wf(),
                    y < self.height,
                    x <= self.width,
                    results@.len() == y * self.width + x,
                    forall|k: int|
                        0 <= k < results@.len() ==> {
                            &&& (#[trigger] results@[k]).0 == k % (self.width as int)
                            &&& results@[k].1 == k / (self.width as int)
                            &&& results@[k].2@ == self.at(
                                results@[k].0 as int,
                                results@[k].1 as int,
                            )
                        },
                decreases self.width - x,
            {
                proof {
                    let k = y * self.width + x;
                    assert(self.width * y == y * self.width) by (nonlinear_arith);
                    lemma_quotient_unique(k, self.width as int, y as int);
                    vstd::arithmetic::div_mod::lemma_fundamental_div_mod(k, self.width as int);
                }
                results.push((x, y, &self.tiles[y][x]));
                x += 1;
            }
            assert(y * self.width + self.width == (y + 1) * self.width) by (nonlinear_arith);
            y += 1;
        }
        assert(self.height * self.width == self.width * self.height) by (nonlinear_arith);
        results
    }

    /// The tiles of the rectangle that starts at column `x_start` and row
    /// `y_start` and is `width` wide and `height` high, row by row; `None`
    /// unless the whole rectangle lies in the grid.
    pub fn get_area(&self, x_start: usize, y_start: usize, width: usize, height: usize) -> (r:
        Option<Vec<Vec<&Tile>>>)
        requires
            self.wf(),
        ensures
            r is Some == (x_start + width <= self.width && y_start + height <= self.height),
            r matches Some(area) ==> {
                &&& area@.len() == height
                &&& forall|j: int| 0 <= j < height ==> (#[trigger] area@[j])@.len() == width
                &&& forall|i: int, j: int|
                    0 <= i < width && 0 <= j < height ==> (#[trigger] area@[j]@[i])@ == self.at(
                        x_start + i,
                        y_start + j,
                    )
            },
    {
        if x_start > self.width || width > self.width - x_start {
            return None;
        }
        if y_start > self.height || height > self.height - y_start {
            return None;
        }
        let mut result: Vec<Vec<&Tile>> = Vec::new();
        let mut j: usize = 0;
        while j < height
            invariant
                self.wf(),
                x_start + width <= self.width,
                y_start + height <= self.height,
                j <= height,
                result@.len() == j,
                forall|b: int| 0 <= b < j ==> (#[trigger] result@[b])@.len() == width,
                forall|a: int, b: int|
                    0 <= a < width && 0 <= b < j ==> (#[trigger] result@[b]@[a])@ == self.at(
                        x_start + a,
                        y_start + b,
                    ),
            decreases height - j,
        {
            let mut row: Vec<&Tile> = Vec::new();
            let mut i: usize = 0;
            while i < width
                invariant
                    self.wf(),
                    x_start + width <= self.width,
                    y_start + height <= self.height,
                    j < height,
                    i <= width,
                    row@.len() == i,
                    forall|a: int|
                        0 <= a < i ==> (#[trigger] row@[a])@ == self.at(x_start + a, y_start + j),
                decreases width - i,
            {
                row.push(&self.tiles[y_start + j][x_start + i]);
                i += 1;
            }
            result.push(row);
            j += 1;
        }
        Some(result)
    }

    /// The rows of tiles as they are stored.
    pub fn tiles(&self) -> (r: &Vec<Vec<Tile>>)
        ensures
            *r == self.tiles,
    {
        &self.tiles
    }

    /// The rows of tiles as they are stored, for writing. Whoever changes
    /// the number of rows or the length of a row leaves a grid that is no
    /// longer well-formed.
    pub fn tiles_mut(&mut self) -> (r: &mut Vec<Vec<Tile>>)
        ensures
            *r == old(self).tiles,
            final(self).tiles == *final(r),
            final(self).same_frame(old(self)),
    {
        &mut self.tiles
    }

    /// The tile at column `x` of row `y`, for writing, or `None` outside
    /// the grid.
    pub fn get_tile_mut(&mut self, x: usize, y: usize) -> (r: Option<&mut Tile>)
        requires
            old(self).wf(),
        ensures
            r is Some == old(self).in_bounds(x as int, y as int),
            final(self).same_frame(old(self)),
            match r {
                Some(tile) => {
                    &&& *tile == old(self).tiles@[y as int]@[x as int]
                    &&& final(self).tiles@.len() == old(self).tiles@.len()
                    &&& final(self).tiles@[y as int]@ == old(self).tiles@[y as int]@.update(
                        x as int,
                        *final(tile),
                    )
                    &&& forall|j: int|
                        0 <= j < old(self).tiles@.len() && j != y ==> final(self).tiles@[j] == old(
                            self,
                        ).tiles@[j]
                },
                None => final(self).tiles == old(self).tiles,
            },
    {
        if x < self.width && y < self.height {
            Some(&mut self.tiles[y][x])
        } else {
            None
        }
    }
}

} // verus!
