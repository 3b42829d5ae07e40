//! Counting the tiles of a grid by type.

use vstd::prelude::*;
use crate::grid::TileGrid;
use crate::tile::{TileKind, TileType, TileView};

verus! {

/// How many tiles of a row are of the given kind.
pub open spec fn row_count(row: Seq<TileView>, kind: TileKind) -> nat
    decreases row.len(),
{
    if row.len() == 0 {
        0
    } else {
        row_count(row.drop_last(), kind) + if row.last().kind == kind {
            1nat
        } else {
            0nat
        }
    }
}

/// How many tiles of the rows are of the given kind.
pub open spec fn rows_count(rows: Seq<Seq<TileView>>, kind: TileKind) -> nat
    decreases rows.len(),
{
    if rows.len() == 0 {
        0
    } else {
        rows_count(rows.drop_last(), kind) + row_count(rows.last(), kind)
    }
}

/// A row holds at most as many tiles of a kind as it has tiles.
pub proof fn lemma_row_count_bound(row: Seq<TileView>, kind: TileKind)
    ensures
        row_count(row, kind) <= row.len(),
    decreases row.len(),
{
    if row.len() > 0 {
        lemma_row_count_bound(row.drop_last(), kind);
    }
}

/// Rows of equal width hold at most width times height tiles of a kind.
pub proof fn lemma_rows_count_bound(rows: Seq<Seq<TileView>>, kind: TileKind, width: nat)
    requires
        forall|y: int| 0 <= y < rows.len() ==> (#[trigger] rows[y]).len() == width,
    ensures
        rows_count(rows, kind) <= rows.len() * width,
    decreases rows.len(),
{
    if rows.len() > 0 {
        lemma_rows_count_bound(rows.drop_last(), kind, width);
        lemma_row_count_bound(rows.last(), kind);
        assert(rows.last() == rows[rows.len() - 1]);
        assert((rows.len() - 1) * width + width == rows.len() * width) by (nonlinear_arith);
    }
}

/// Whether some entry counts the given kind.
pub open spec fn has_kind(entries: Seq<(TileType, usize)>, kind: TileKind) -> bool {
    exists|i: int| 0 <= i < entries.len() && (#[trigger] entries[i]).0@ == kind
}

/// The position of an entry that counts the given kind.
pub open spec fn kind_index(entries: Seq<(TileType, usize)>, kind: TileKind) -> int {
    choose|i: int| 0 <= i < entries.len() && (#[trigger] entries[i]).0@ == kind
}

/// The count recorded for a kind: zero where no entry counts it.
pub open spec fn count_of(entries: Seq<(TileType, usize)>, kind: TileKind) -> nat {
    if has_kind(entries, kind) {
        entries[kind_index(entries, kind)].1 as nat
    } else {
        0
    }
}

/// Whether every entry counts another kind, and none counts zero.
pub open spec fn counts_wf(entries: Seq<(TileType, usize)>) -> bool {
    &&& forall|i: int, j: int|
        0 <= i < j < entries.len() ==> (#[trigger] entries[i]).0@ != (#[trigger] entries[j]).0@
    &&& forall|i: int| 0 <= i < entries.len() ==> (#[trigger] entries[i]).1 >= 1
}

/// Raising the count of the entry at `i` by one raises the count of its
/// kind by one and leaves the other kinds alone.
pub proof fn lemma_count_raise(
    before: Seq<(TileType, usize)>,
    after: Seq<(TileType, usize)>,
    i: int,
)
    requires
        counts_wf(before),
        0 <= i < before.len(),
        after.len() == before.len(),
        after[i].0@ == before[i].0@,
        after[i].1 == before[i].1 + 1,
        forall|j: int| 0 <= j < before.len() && j != i ==> after[j] == before[j],
    ensures
        counts_wf(after),
        forall|kind: TileKind| #[trigger]
            count_of(after, kind) == count_of(before, kind) + if kind == before[i].0@ {
                1nat
            } else {
                0nat
            },
{
    assert forall|a: int, b: int| 0 <= a < b < after.len() implies (#[trigger] after[a]).0@ != (
    #[trigger] after[b]).0@ by {
        assert(before[a].0@ != before[b].0@);
    }
    assert forall|a: int| 0 <= a < after.len() implies (#[trigger] after[a]).1 >= 1 by {
        assert(before[a].1 >= 1);
    }
    assert forall|kind: TileKind| #[trigger]
        count_of(after, kind) == count_of(before, kind) + if kind == before[i].0@ {
            1nat
        } else {
            0nat
        } by {
        if has_kind(before, kind) {
            let j = kind_index(before, kind);
            assert(after[j].0@ == kind);
            let k = kind_index(after, kind);
            assert(before[k].0@ == kind);
            assert(k == j) by {
                if k < j {
                    assert(before[k].0@ != before[j].0@);
                } else if j < k {
                    assert(before[j].0@ != before[k].0@);
                }
            }
            if kind == before[i].0@ {
                assert(j == i) by {
                    if i < j {
                        assert(before[i].0@ != before[j].0@);
                    } else if j < i {
                        assert(before[j].0@ != before[i].0@);
                    }
                }
            }
        } else {
            if has_kind(after, kind) {
                let k = kind_index(after, kind);
                assert(before[k].0@ == kind);
            }
            assert(before[i].0@ != kind);
        }
    }
}

/// Appending an entry that counts one tile of a kind not yet counted
/// raises the count of that kind to one and leaves the other kinds alone.
pub proof fn lemma_count_append(before: Seq<(TileType, usize)>, entry: (TileType, usize))
    requires
        counts_wf(before),
        !has_kind(before, entry.0@),
        entry.1 == 1,
    ensures
        counts_wf(before.push(entry)),
        forall|kind: TileKind| #[trigger]
            count_of(before.push(entry), kind) == count_of(before, kind) + if kind == entry.0@ {
                1nat
            } else {
                0nat
            },
{
    let after = before.push(entry);
    let n = before.len() as int;
    assert forall|a: int, b: int| 0 <= a < b < after.len() implies (#[trigger] after[a]).0@ != (
    #[trigger] after[b]).0@ by {
        if b < n {
            assert(before[a].0@ != before[b].0@);
        } else {
            assert(before[a].0@ != entry.0@);
        }
    }
    assert forall|a: int| 0 <= a < after.len() implies (#[trigger] after[a]).1 >= 1 by {
        if a < n {
            assert(before[a].1 >= 1);
        }
    }
    assert forall|kind: TileKind| #[trigger]
        count_of(after, kind) == count_of(before, kind) + if kind == entry.0@ {
            1nat
        } else {
            0nat
        } by {
        if kind == entry.0@ {
            assert(after[n].0@ == kind);
            let k = kind_index(after, kind);
            if k < n {
                assert(before[k].0@ == kind);
            }
        } else if has_kind(before, kind) {
            let j = kind_index(before, kind);
            assert(after[j].0@ == kind);
            let k = kind_index(after, kind);
            assert(k < n);
            assert(before[k].0@ == kind);
            assert(k == j) by {
                if k < j {
                    assert(before[k].0@ != before[j].0@);
                } else if j < k {
                    assert(before[j].0@ != before[k].0@);
                }
            }
        } else {
            if has_kind(after, kind) {
                let k = kind_index(after, kind);
                if k < n {
                    assert(before[k].0@ == kind);
                }
            }
        }
    }
}

/// How many tiles of each type a grid holds. Only the types that occur
/// have an entry.
#[derive(Debug)]
pub struct TileTypeCounts {
    /// One entry for each type that occurs, in the order of first
    /// occurrence, with the number of its tiles.
    pub entries: Vec<(TileType, usize)>,
}

impl TileTypeCounts {
    /// Well-formedness: no type has two entries and no entry counts zero.
    pub open spec fn wf(&self) -> bool {
        counts_wf(self.entries@)
    }

    /// The count recorded for a kind.
    pub open spec fn count(&self, kind: TileKind) -> nat {
        count_of(self.entries@, kind)
    }

    /// The position of the entry for `tile_type`.
    fn position(&self, tile_type: &TileType) -> (r: Option<usize>)
        ensures
            match r {
                Some(i) => i < self.entries@.len() && self.entries@[i as int].0@ == tile_type@,
                None => !has_kind(self.entries@, tile_type@),
            },
    {
        let mut i: usize = 0;
        while i < self.entries.len()
            invariant
                i <= self.entries@.len(),
                forall|j: int| 0 <= j < i ==> (#[trigger] self.entries@[j]).0@ != tile_type@,
            decreases self.entries@.len() - i,
        {
            if self.entries[i].0 == *tile_type {
                return Some(i);
            }
            i += 1;
        }
        None
    }

    /// The number of tiles of `tile_type`, or `None` where there is none.
    pub fn get(&self, tile_type: &TileType) -> (r: Option<&usize>)
        requires
            self.wf(),
        ensures
            r is Some == (self.count(tile_type@) > 0),
            r matches Some(n) ==> *n == self.count(tile_type@),
    {
        match self.position(tile_type) {
            Some(i) => {
                proof {
                    let j = kind_index(self.entries@, tile_type@);
                    if i < j {
                        assert(self.entries@[i as int].0@ != self.entries@[j].0@);
                    } else if j < i {
                        assert(self.entries@[j].0@ != self.entries@[i as int].0@);
                    }
                    assert(self.entries@[i as int].1 >= 1);
                }
                Some(&self.entries[i].1)
            },
            None => None,
        }
    }

    /// Whether any tile is of `tile_type`.
    pub fn contains_key(&self, tile_type: &TileType) -> (r: bool)
        requires
            self.wf(),
        ensures
            r == (self.count(tile_type@) > 0),
    {
        self.get(tile_type).is_some()
    }

    /// The number of types that occur.
    pub fn len(&self) -> (r: usize)
        ensures
            r == self.entries@.len(),
    {
        self.entries.len()
    }

    /// Counts one more tile of `tile_type`.
    fn add_one(&mut self, tile_type: &TileType)
        requires
            old(self).wf(),
            old(self).count(tile_type@) < usize::MAX,
        ensures
            final(self).wf(),
            forall|kind: TileKind| #[trigger]
                final(self).count(kind) == old(self).count(kind) + if kind == tile_type@ {
                    1nat
                } else {
                    0nat
                },
    {
        let ghost before = self.entries@;
        match self.position(tile_type) {
            Some(i) => {
                proof {
                    let j = kind_index(before, tile_type@);
                    if i < j {
                        assert(before[i as int].0@ != before[j].0@);
                    } else if j < i {
                        assert(before[j].0@ != before[i as int].0@);
                    }
                }
                let n: usize = self.entries[i].1;
                self.entries.set(i, (tile_type.clone(), n + 1));
                proof {
                    lemma_count_raise(before, self.entries@, i as int);
                }
            },
            None => {
                self.entries.push((tile_type.clone(), 1));
                proof {
                    lemma_count_append(before, self.entries@[before.len() as int]);
                    assert(self.entries@ =~= before.push(self.entries@[before.len() as int]));
                }
            },
        }
    }
}

/// Figures about a grid.
#[derive(Debug)]
pub struct GridStatistics {
    /// Number of tiles.
    pub total_tiles: usize,
    /// Number of tiles that are not empty.
    pub non_empty_tiles: usize,
    /// Number of tiles of each type.
    pub tile_type_counts: TileTypeCounts,
    /// Share of the tiles that are not empty, in millionths, rounded down;
    /// zero for a grid without tiles.
    pub coverage_ppm: u32,
    /// Width and height of the grid.
    pub dimensions: (usize, usize),
    /// Approximate edge length of a tile in millimetres.
    pub mm_per_tile: u32,
}

/// The share of `part` in `total` in millionths, rounded down.
pub open spec fn parts_per_million(part: int, total: int) -> int {
    if total == 0 {
        0
    } else {
        part * 1_000_000 / total
    }
}

/// The share of `part` in `total` in millionths, rounded down.
pub fn coverage(part: usize, total: usize) -> (r: u32)
    requires
        part <= total,
    ensures
        r == parts_per_million(part as int, total as int),
        r <= 1_000_000,
{
    if total == 0 {
        return 0;
    }
    let scaled: u128 = part as u128 * 1_000_000;
    let q: u128 = scaled / (total as u128);
    proof {
        crate::arith::lemma_quotient_bounds(part * 1_000_000, total as int);
        assert(q <= 1_000_000) by (nonlinear_arith)
            requires
                total > 0,
                part <= total,
                total * q <= part * 1_000_000,
        ;
    }
    q as u32
}

impl TileGrid {
    /// How many tiles of the grid are of the given kind.
    pub open spec fn kind_count(&self, kind: TileKind) -> nat {
        rows_count(self.cells(), kind)
    }

    /// The number of tiles of each type.
    pub fn count_tiles_by_type(&self) -> (r: TileTypeCounts)
        requires
            self.wf(),
        ensures
            r.wf(),
            forall|kind: TileKind| #[trigger] r.count(kind) == self.kind_count(kind),
    {
        let mut counts = TileTypeCounts { entries: Vec::new() };
        let ghost cells = self.cells();
        assert(forall|kind: TileKind| #[trigger]
            count_of(counts.entries@, kind) == rows_count(cells.take(0), kind));
        let mut y: usize = 0;
        while y < self.height
            invariant
                self.wf(),
                cells == self.cells(),
                y <= self.height,
                counts.wf(),
                forall|kind: TileKind| #[trigger]
                    counts.count(kind) == rows_count(cells.take(y as int), kind),
            decreases self.height - y,
        {
            let mut x: usize = 0;
            assert(cells[y as int].take(0).len() == 0);
            while x < self.width
                invariant
                    self.wf(),
                    cells == self.cells(),
                    y < self.height,
                    x <= self.width,
                    counts.wf(),
                    forall|kind: TileKind| #[trigger]
                        counts.count(kind) == rows_count(cells.take(y as int), kind) + row_count(
                            cells[y as int].take(x as int),
                            kind,
                        ),
                decreases self.width - x,
            {
                let tile_type = &self.tiles[y][x].tile_type;
                proof {
                    let kind = tile_type@;
                    let row = cells[y as int];
                    assert(row.len() == self.width);
                    assert(row[x as int].kind == kind);
                    lemma_rows_count_bound(cells.take(y as int), kind, self.width as nat);
                    lemma_row_count_bound(row.take(x as int), kind);
                    assert(y * self.width + x < self.width * self.height) by (nonlinear_arith)
                        requires
                            y < self.height,
                            x < self.width,
                    ;
                    assert(counts.count(kind) == rows_count(cells.take(y as int), kind)
                        + row_count(row.take(x as int), kind));
                    assert(row.take(x + 1).drop_last() =~= row.take(x as int));
                    assert(row.take(x + 1).last() == row[x as int]);
                }
                counts.add_one(tile_type);
                x += 1;
            }
            proof {
                assert(cells[y as int].take(self.width as int) =~= cells[y as int]);
                assert(cells.take(y + 1).drop_last() =~= cells.take(y as int));
                assert(cells.take(y + 1).last() == cells[y as int]);
            }
            y += 1;
        }
        assert(cells.take(self.height as int) =~= cells);
        counts
    }

    /// The figures about the grid: the number of tiles, how many of them
    /// are not empty, the count of each type and the coverage.
    pub fn statistics(&self) -> (r: GridStatistics)
        requires
            self.wf(),
        ensures
            r.total_tiles == self.width * self.height,
            r.non_empty_tiles == r.total_tiles - self.kind_count(TileKind::Empty),
            r.non_empty_tiles + r.tile_type_counts.count(TileKind::Empty) == r.total_tiles,
            r.tile_type_counts.wf(),
            forall|kind: TileKind| #[trigger]
                r.tile_type_counts.count(kind) == self.kind_count(kind),
            r.coverage_ppm == parts_per_million(r.non_empty_tiles as int, r.total_tiles as int),
            r.dimensions == (self.width, self.height),
            r.mm_per_tile == self.mm_per_tile,
    {
        let counts = self.count_tiles_by_type();
        let total_tiles = self.tile_count();
        proof {
            lemma_rows_count_bound(self.cells(), TileKind::Empty, self.width as nat);
            assert(self.height * self.width == self.width * self.height) by (nonlinear_arith);
            assert(counts.count(TileKind::Empty) == self.kind_count(TileKind::Empty));
        }
        let empty: usize = match counts.get(&TileType::Empty) {
            Some(n) => *n,
            None => 0,
        };
        let non_empty_tiles: usize = total_tiles - empty;
        GridStatistics {
            total_tiles,
            non_empty_tiles,
            tile_type_counts: counts,
            coverage_ppm: coverage(non_empty_tiles, total_tiles),
            dimensions: self.dimensions(),
            mm_per_tile: self.mm_per_tile,
        }
    }
}

} // verus!
