//! The generator that turns map elements into a grid.

use vstd::prelude::*;
use vstd::string::*;
use crate::arith::{integer_sqrt, is_integer_sqrt, lemma_scaled_index_range};
use crate::clock::{elapsed_millis, instant_now};
use crate::config::OsmConfig;
use crate::data::OsmDataFormat;
use crate::element::{classify, ElementView, OsmElement};
use crate::error::OsmTilesError;
use crate::grid::{fits_memory, Frame, TileGrid};
use crate::line::{lemma_line_shape, line_cells};
use crate::paint::{
    has_dimensions, lemma_paint_concat, lemma_paint_dimensions, lemma_paint_push,
    lemma_paint_weight, lemma_weight_bound, paint, paint_count, path_in_bounds, weight,
};
use crate::parse::{element_views, parse_spec, Decoded, OsmParser};
use crate::polygon::{fill_cells, lemma_fill_in_bounds};
use crate::region::{BoundingBox, UNITS_PER_DEGREE};
use crate::fixed::{fixed_decimal, fixed_to_string};
use crate::text::{decimal, usize_to_string};
use crate::tile::{Tile, TileKind, TileMetadataView, TileView, FULL_CONFIDENCE};

verus! {

/// The smallest width and height of a generated grid.
pub const MIN_GRID_SIZE: usize = 10;

/// The default grid generator: it draws every element onto an empty grid,
/// the outline of each with straight lines and the interior of closed
/// areas cell by cell.
#[derive(Debug)]
pub struct DefaultGridGenerator {
    /// The parser for the data.
    pub parser: OsmParser,
    /// The largest width and height that a generated grid may have.
    pub max_grid_size: (usize, usize),
}

/// What a generator can do.
#[derive(Debug)]
pub struct GeneratorCapabilities {
    /// The largest grid, as width and height.
    pub max_grid_size: Option<(usize, usize)>,
    /// The coordinate reference systems that are understood.
    pub supported_crs: Vec<String>,
    /// Whether several threads are used.
    pub supports_parallel: bool,
    /// Remarks.
    pub notes: Option<String>,
}

impl Default for GeneratorCapabilities {
    fn default() -> (r: Self)
        ensures
            r.max_grid_size == Some((10000usize, 10000usize)),
            r.supported_crs@.len() == 1,
            r.supported_crs@[0]@ == "EPSG:4326"@,
            !r.supports_parallel,
            r.notes is None,
    {
        let mut supported_crs: Vec<String> = Vec::new();
        supported_crs.push(String::from_str("EPSG:4326"));
        GeneratorCapabilities {
            max_grid_size: Some((10000, 10000)),
            supported_crs,
            supports_parallel: false,
            notes: None,
        }
    }
}

/// What a generation starts from: the data as far as it could be
/// decoded, the bounding box that was fetched, and its area.
#[derive(Debug)]
pub struct GridInput {
    /// The format of the data.
    pub format: OsmDataFormat,
    /// What decoding the data gave.
    pub decoded: Decoded,
    /// The bounding box that the data was fetched for.
    pub bounding_box: BoundingBox,
    /// The area of the bounding box in square metres.
    pub area_m2: u64,
}

/// The number of cells for a span of coordinate units at a resolution in
/// cells per degree, rounded up; none for a span without extent.
pub open spec fn cells_for(span: int, resolution: int) -> int {
    if span <= 0 {
        0
    } else {
        (span * resolution + (UNITS_PER_DEGREE - 1)) / (UNITS_PER_DEGREE as int)
    }
}

/// A number of cells held between the least grid size and the greatest;
/// where the greatest is below the least, the greatest wins.
pub open spec fn clamp_cells(cells: int, greatest: int) -> int {
    let raised = if cells < MIN_GRID_SIZE {
        MIN_GRID_SIZE as int
    } else {
        cells
    };
    if raised > greatest {
        greatest
    } else {
        raised
    }
}

/// The dimensions of the grid for a bounding box at a resolution.
pub open spec fn grid_dimensions(bounding_box: BoundingBox, resolution: int, greatest: (usize, usize)) -> (
    int,
    int,
) {
    (
        clamp_cells(cells_for(bounding_box.width_spec(), resolution), greatest.0 as int),
        clamp_cells(cells_for(bounding_box.height_spec(), resolution), greatest.1 as int),
    )
}

/// The edge in millimetres of a square tile when `tiles` of them cover
/// `area_m2` square metres, rounded down: the greatest `u32` where there
/// is no tile or the edge is beyond it.
pub open spec fn derived_edge_mm(area_m2: int, tiles: int, edge: int) -> bool {
    if tiles == 0 {
        edge == u32::MAX
    } else if area_m2 * 1_000_000 / tiles > u64::MAX {
        edge == u32::MAX
    } else {
        is_integer_sqrt(area_m2 * 1_000_000 / tiles, edge)
    }
}

/// Whether `blend` is the edge that is recorded for the tiles of a grid:
/// the mean, rounded down, of the edge derived from the area and the
/// nominal tile size.
pub open spec fn is_tile_edge(area_m2: int, tiles: int, nominal_mm: int, blend: int) -> bool {
    exists|edge: int| derived_edge_mm(area_m2, tiles, edge) && blend == (edge + nominal_mm) / 2
}

/// The cells of the line between the cells of two points; none unless
/// both points lie in the bounding box.
pub open spec fn segment_cells(frame: Frame, a: (i32, i32), b: (i32, i32)) -> Seq<(int, int)> {
    match (frame.cell_of(a.0 as int, a.1 as int), frame.cell_of(b.0 as int, b.1 as int)) {
        (Some(p), Some(q)) => line_cells(p.0, p.1, q.0, q.1),
        _ => Seq::empty(),
    }
}

/// The cells of the lines between each of the first `upto` points and the
/// next, one line after the other.
pub open spec fn outline_cells(frame: Frame, geometry: Seq<(i32, i32)>, upto: int) -> Seq<
    (int, int),
>
    decreases upto,
{
    if upto <= 1 {
        Seq::empty()
    } else {
        outline_cells(frame, geometry, upto - 1) + segment_cells(
            frame,
            geometry[upto - 2],
            geometry[upto - 1],
        )
    }
}

/// The cells that a geometry of several points offers its tile to: the
/// outline, and after it, for the kinds that are filled and with three
/// points or more, the interior.
pub open spec fn shape_cells(frame: Frame, geometry: Seq<(i32, i32)>, kind: TileKind) -> Seq<
    (int, int),
> {
    outline_cells(frame, geometry, geometry.len() as int) + if kind.is_filled() && geometry.len()
        >= 3 {
        fill_cells(frame, geometry)
    } else {
        Seq::empty()
    }
}

/// The tile that an element offers: its kind, and as metadata its
/// identifier and its tags.
pub open spec fn element_tile(element: ElementView) -> TileView {
    TileView {
        kind: classify(element.tags),
        metadata: Some(
            TileMetadataView {
                osm_ids: seq![element.id],
                tags: element.tags,
                confidence: FULL_CONFIDENCE,
            },
        ),
    }
}

/// The cells that an element offers its tile to, in order. An element
/// whose tags give an empty tile, or one without geometry, offers
/// nothing; a single point offers to its cell, if it lies in the bounding
/// box.
pub open spec fn element_cells(frame: Frame, element: ElementView) -> Seq<(int, int)> {
    if classify(element.tags) is Empty || element.geometry.len() == 0 {
        Seq::empty()
    } else if element.geometry.len() == 1 {
        match frame.cell_of(element.geometry[0].0 as int, element.geometry[0].1 as int) {
            Some(cell) => seq![cell],
            None => Seq::empty(),
        }
    } else {
        shape_cells(frame, element.geometry, classify(element.tags))
    }
}

/// The tiles after each of the elements in turn has offered its tile to
/// its cells.
pub open spec fn rasterize_all(
    cells: Seq<Seq<TileView>>,
    frame: Frame,
    elements: Seq<ElementView>,
) -> Seq<Seq<TileView>>
    decreases elements.len(),
{
    if elements.len() == 0 {
        cells
    } else {
        paint(
            rasterize_all(cells, frame, elements.drop_last()),
            element_cells(frame, elements.last()),
            element_tile(elements.last()),
        )
    }
}

/// How many offers were taken while the elements were drawn.
pub open spec fn rasterize_count(
    cells: Seq<Seq<TileView>>,
    frame: Frame,
    elements: Seq<ElementView>,
) -> nat
    decreases elements.len(),
{
    if elements.len() == 0 {
        0
    } else {
        rasterize_count(cells, frame, elements.drop_last()) + paint_count(
            rasterize_all(cells, frame, elements.drop_last()),
            element_cells(frame, elements.last()),
            element_tile(elements.last()),
        )
    }
}

/// A grid of empty tiles.
pub open spec fn empty_cells(width: int, height: int) -> Seq<Seq<TileView>> {
    Seq::new(height as nat, |y: int| Seq::new(width as nat, |x: int| TileView::empty()))
}

/// The cell of a point lies in the grid.
pub proof fn lemma_cell_in_bounds(frame: Frame, lat: int, lon: int)
    requires
        frame.width > 0,
        frame.height > 0,
    ensures
        frame.cell_of(lat, lon) matches Some(cell) ==> frame.in_bounds(cell.0, cell.1),
{
    if frame.bounding_box.contains_spec(lat, lon) {
        lemma_scaled_index_range(
            lon - frame.bounding_box.west,
            frame.bounding_box.width_spec(),
            frame.width,
        );
        lemma_scaled_index_range(
            frame.bounding_box.north - lat,
            frame.bounding_box.height_spec(),
            frame.height,
        );
    }
}

/// Two paths in the grid make a path in the grid.
pub proof fn lemma_bounds_concat(a: Seq<(int, int)>, b: Seq<(int, int)>, width: int, height: int)
    requires
        path_in_bounds(a, width, height),
        path_in_bounds(b, width, height),
    ensures
        path_in_bounds(a + b, width, height),
{
    assert forall|k: int| 0 <= k < (a + b).len() implies 0 <= (#[trigger] (a + b)[k]).0 < width
        && 0 <= (a + b)[k].1 < height by {
        if k < a.len() {
            assert((a + b)[k] == a[k]);
        } else {
            assert((a + b)[k] == b[k - a.len()]);
        }
    }
}

/// The cells of a segment lie in the grid.
pub proof fn lemma_segment_in_bounds(frame: Frame, a: (i32, i32), b: (i32, i32))
    requires
        frame.width > 0,
        frame.height > 0,
    ensures
        path_in_bounds(segment_cells(frame, a, b), frame.width, frame.height),
{
    lemma_cell_in_bounds(frame, a.0 as int, a.1 as int);
    lemma_cell_in_bounds(frame, b.0 as int, b.1 as int);
    match (frame.cell_of(a.0 as int, a.1 as int), frame.cell_of(b.0 as int, b.1 as int)) {
        (Some(p), Some(q)) => {
            lemma_line_shape(p.0, p.1, q.0, q.1, frame.width, frame.height);
        },
        _ => {},
    }
}

/// The cells of an outline lie in the grid.
pub proof fn lemma_outline_in_bounds(frame: Frame, geometry: Seq<(i32, i32)>, upto: int)
    requires
        frame.width > 0,
        frame.height > 0,
    ensures
        path_in_bounds(outline_cells(frame, geometry, upto), frame.width, frame.height),
    decreases upto,
{
    if upto > 1 {
        lemma_outline_in_bounds(frame, geometry, upto - 1);
        lemma_segment_in_bounds(frame, geometry[upto - 2], geometry[upto - 1]);
        lemma_bounds_concat(
            outline_cells(frame, geometry, upto - 1),
            segment_cells(frame, geometry[upto - 2], geometry[upto - 1]),
            frame.width,
            frame.height,
        );
    }
}

/// Every cell that an element offers its tile to lies in the grid.
pub proof fn lemma_element_in_bounds(frame: Frame, element: ElementView)
    requires
        frame.width > 0,
        frame.height > 0,
    ensures
        path_in_bounds(element_cells(frame, element), frame.width, frame.height),
{
    let geometry = element.geometry;
    if classify(element.tags) is Empty || geometry.len() == 0 {
    } else if geometry.len() == 1 {
        lemma_cell_in_bounds(frame, geometry[0].0 as int, geometry[0].1 as int);
    } else {
        lemma_outline_in_bounds(frame, geometry, geometry.len() as int);
        lemma_fill_in_bounds(frame, geometry);
        lemma_bounds_concat(
            outline_cells(frame, geometry, geometry.len() as int),
            if classify(element.tags).is_filled() && geometry.len() >= 3 {
                fill_cells(frame, geometry)
            } else {
                Seq::empty()
            },
            frame.width,
            frame.height,
        );
    }
}

/// Drawing elements keeps the dimensions of the grid, and the weight of
/// the grid grows at least by the number of offers taken.
pub proof fn lemma_rasterize_weight(
    cells: Seq<Seq<TileView>>,
    frame: Frame,
    elements: Seq<ElementView>,
)
    requires
        frame.width > 0,
        frame.height > 0,
        has_dimensions(cells, frame.width, frame.height),
    ensures
        has_dimensions(rasterize_all(cells, frame, elements), frame.width, frame.height),
        weight(cells) + rasterize_count(cells, frame, elements) <= weight(
            rasterize_all(cells, frame, elements),
        ),
    decreases elements.len(),
{
    if elements.len() > 0 {
        lemma_rasterize_weight(cells, frame, elements.drop_last());
        let before = rasterize_all(cells, frame, elements.drop_last());
        let path = element_cells(frame, elements.last());
        let tile = element_tile(elements.last());
        lemma_element_in_bounds(frame, elements.last());
        lemma_paint_dimensions(before, path, tile, frame.width, frame.height);
        lemma_paint_weight(before, path, tile, frame.width, frame.height);
    }
}

impl DefaultGridGenerator {
    /// A generator for grids of up to 5000 by 5000 tiles.
    pub fn new() -> (r: Self)
        ensures
            r.max_grid_size == (5000usize, 5000usize),
    {
        DefaultGridGenerator { parser: OsmParser, max_grid_size: (5000, 5000) }
    }

    /// A generator for grids of up to `max_width` by `max_height` tiles.
    pub fn with_max_size(max_width: usize, max_height: usize) -> (r: Self)
        ensures
            r.max_grid_size == (max_width, max_height),
    {
        DefaultGridGenerator { parser: OsmParser, max_grid_size: (max_width, max_height) }
    }

    /// What this generator can do.
    pub fn capabilities(&self) -> (r: GeneratorCapabilities)
        ensures
            r.max_grid_size == Some(self.max_grid_size),
            r.supported_crs@.len() == 1,
            r.supported_crs@[0]@ == "EPSG:4326"@,
            !r.supports_parallel,
            r.notes matches Some(notes) && notes@ == "Default rasterization-based grid generator"@,
    {
        let mut supported_crs: Vec<String> = Vec::new();
        supported_crs.push(String::from_str("EPSG:4326"));
        GeneratorCapabilities {
            max_grid_size: Some(self.max_grid_size),
            supported_crs,
            supports_parallel: false,
            notes: Some(String::from_str("Default rasterization-based grid generator")),
        }
    }

    /// The number of cells for a span at a resolution, held between the
    /// least grid size and `greatest`.
    fn cells(span: i64, resolution: u32, greatest: usize) -> (r: usize)
        requires
            -0x1_0000_0000 <= span <= 0x1_0000_0000,
        ensures
            r == clamp_cells(cells_for(span as int, resolution as int), greatest as int),
    {
        let cells: u64 = if span <= 0 {
            0
        } else {
            assert(0 <= span * resolution <= 0x1_0000_0000 * 0x1_0000_0000) by (nonlinear_arith)
                requires
                    0 <= span <= 0x1_0000_0000,
                    0 <= resolution <= 0x1_0000_0000,
            ;
            let scaled: u128 = span as u128 * resolution as u128 + (UNITS_PER_DEGREE as u128 - 1);
            let q: u128 = scaled / (UNITS_PER_DEGREE as u128);
            q as u64
        };
        let raised: u64 = if cells < MIN_GRID_SIZE as u64 {
            MIN_GRID_SIZE as u64
        } else {
            cells
        };
        if raised > greatest as u64 {
            greatest
        } else {
            raised as usize
        }
    }

    /// The dimensions of the grid for a bounding box: the resolution times
    /// the extent in degrees, rounded up, but at least ten cells each way
    /// and at most what this generator allows.
    pub fn calculate_grid_dimensions(&self, config: &OsmConfig, bounding_box: &BoundingBox) -> (r: (
        usize,
        usize,
    ))
        ensures
            (r.0 as int, r.1 as int) == grid_dimensions(
                *bounding_box,
                config.grid_resolution as int,
                self.max_grid_size,
            ),
            r.0 <= self.max_grid_size.0,
            r.1 <= self.max_grid_size.1,
            self.max_grid_size.0 > 0 ==> r.0 > 0,
            self.max_grid_size.1 > 0 ==> r.1 > 0,
    {
        (
            Self::cells(bounding_box.width(), config.grid_resolution, self.max_grid_size.0),
            Self::cells(bounding_box.height(), config.grid_resolution, self.max_grid_size.1),
        )
    }

    /// The edge that is recorded for the tiles of a grid, in millimetres:
    /// the mean of the edge that the area gives to each of the tiles and
    /// of the nominal tile size of the configuration.
    pub fn calculate_meters_per_tile(
        &self,
        config: &OsmConfig,
        area_m2: u64,
        grid_dims: (usize, usize),
    ) -> (r: u32)
        requires
            grid_dims.0 * grid_dims.1 <= usize::MAX,
        ensures
            is_tile_edge(
                area_m2 as int,
                grid_dims.0 * grid_dims.1,
                config.tile_size_mm as int,
                r as int,
            ),
    {
        let total: usize = grid_dims.0 * grid_dims.1;
        let edge: u64 = if total == 0 {
            0xffff_ffff
        } else {
            let per_tile: u128 = area_m2 as u128 * 1_000_000 / (total as u128);
            if per_tile > 0xffff_ffff_ffff_ffff {
                0xffff_ffff
            } else {
                let root = integer_sqrt(per_tile as u64);
                proof {
                    assert(root <= 0xffff_ffff) by (nonlinear_arith)
                        requires
                            root * root <= 0xffff_ffff_ffff_ffff,
                            0 <= root,
                    ;
                }
                root
            }
        };
        assert(derived_edge_mm(area_m2 as int, total as int, edge as int));
        let blend: u64 = (edge + config.tile_size_mm as u64) / 2;
        blend as u32
    }

    /// Draws a geometry of several points: the lines from each point to
    /// the next and, for the kinds that are filled and with three points
    /// or more, the interior. Returns how many cells took the tile.
    pub fn rasterize_line(&self, geometry: &Vec<(i32, i32)>, tile: &Tile, grid: &mut TileGrid) -> (r:
        usize)
        requires
            old(grid).wf(),
            old(grid).width > 0,
            old(grid).height > 0,
        ensures
            final(grid).wf(),
            final(grid).same_frame(old(grid)),
            final(grid).cells() == paint(
                old(grid).cells(),
                shape_cells(old(grid).frame(), geometry@, tile@.kind),
                tile@,
            ),
            r == paint_count(
                old(grid).cells(),
                shape_cells(old(grid).frame(), geometry@, tile@.kind),
                tile@,
            ),
    {
        let ghost frame = grid.frame();
        let ghost start = grid.cells();
        let mut count: usize = 0;
        let should_fill = tile.tile_type.is_filled();
        let n = geometry.len();
        let mut k: usize = 1;
        proof {
            grid.lemma_cells();
        }
        while k < n
            invariant
                n == geometry@.len(),
                1 <= k,
                k <= n || (n == 0 && k == 1),
                grid.wf(),
                grid.same_frame(old(grid)),
                frame == old(grid).frame(),
                frame.width > 0,
                frame.height > 0,
                has_dimensions(start, frame.width, frame.height),
                grid.cells() == paint(start, outline_cells(frame, geometry@, k as int), tile@),
                count == paint_count(start, outline_cells(frame, geometry@, k as int), tile@),
            decreases n - k,
        {
            let (lat1, lon1) = geometry[k - 1];
            let (lat2, lon2) = geometry[k];
            let ghost done = outline_cells(frame, geometry@, k as int);
            let ghost segment = segment_cells(frame, geometry@[k - 1], geometry@[k as int]);
            proof {
                lemma_outline_in_bounds(frame, geometry@, k as int);
                lemma_outline_in_bounds(frame, geometry@, k + 1);
                lemma_paint_concat(start, done, segment, tile@);
                lemma_paint_weight(start, done + segment, tile@, frame.width, frame.height);
                lemma_paint_dimensions(start, done + segment, tile@, frame.width, frame.height);
                lemma_weight_bound(
                    paint(start, done + segment, tile@),
                    frame.width,
                    frame.height,
                );
            }
            let a = grid.geo_to_grid(lat1, lon1);
            let b = grid.geo_to_grid(lat2, lon2);
            match (a, b) {
                (Some((x1, y1)), Some((x2, y2))) => {
                    let drawn = self.draw_line(x1, y1, x2, y2, tile, grid);
                    count = count + drawn;
                },
                _ => {
                    assert(done + segment =~= done);
                },
            }
            k = k + 1;
        }
        let ghost outline = outline_cells(frame, geometry@, n as int);
        proof {
            if n == 0 {
                assert(outline_cells(frame, geometry@, 1) =~= outline);
            }
        }
        if should_fill && n >= 3 {
            proof {
                let inner = fill_cells(frame, geometry@);
                lemma_outline_in_bounds(frame, geometry@, n as int);
                lemma_fill_in_bounds(frame, geometry@);
                lemma_bounds_concat(outline, inner, frame.width, frame.height);
                lemma_paint_concat(start, outline, inner, tile@);
                lemma_paint_weight(start, outline + inner, tile@, frame.width, frame.height);
                lemma_paint_dimensions(start, outline + inner, tile@, frame.width, frame.height);
                lemma_weight_bound(
                    paint(start, outline + inner, tile@),
                    frame.width,
                    frame.height,
                );
            }
            let filled = self.fill_polygon(geometry, tile, grid);
            count = count + filled;
        } else {
            assert(outline + Seq::<(int, int)>::empty() =~= outline);
        }
        count
    }

    /// Draws an element: offers its tile to each of its cells in turn and
    /// returns how many cells took it.
    pub fn rasterize_element(&self, element: &OsmElement, grid: &mut TileGrid) -> (r: usize)
        requires
            old(grid).wf(),
            old(grid).width > 0,
            old(grid).height > 0,
        ensures
            final(grid).wf(),
            final(grid).same_frame(old(grid)),
            final(grid).cells() == paint(
                old(grid).cells(),
                element_cells(old(grid).frame(), element@),
                element_tile(element@),
            ),
            r == paint_count(
                old(grid).cells(),
                element_cells(old(grid).frame(), element@),
                element_tile(element@),
            ),
    {
        let tile_type = element.to_tile_type();
        match tile_type {
            crate::tile::TileType::Empty => {
                return 0;
            },
            _ => {},
        }
        let metadata = element.to_tile_metadata();
        let tile = Tile::with_metadata(tile_type, metadata);
        assert(tile@ == element_tile(element@));
        let n = element.geometry.len();
        if n == 0 {
            0
        } else if n == 1 {
            let (lat, lon) = element.geometry[0];
            let ghost start = grid.cells();
            match grid.geo_to_grid(lat, lon) {
                Some((x, y)) => {
                    proof {
                        lemma_paint_push(start, Seq::empty(), (x as int, y as int), tile@);
                        assert(Seq::<(int, int)>::empty().push((x as int, y as int)) =~= seq![
                            (x as int, y as int),
                        ]);
                    }
                    match grid.set_tile_with_priority(x, y, tile) {
                        Ok(true) => 1,
                        _ => 0,
                    }
                },
                None => 0,
            }
        } else {
            self.rasterize_line(&element.geometry, &tile, grid)
        }
    }

    /// Draws the elements onto the grid one after the other and returns
    /// how many offers were taken in all.
    pub fn rasterize_elements(&self, elements: &Vec<OsmElement>, grid: &mut TileGrid) -> (r: usize)
        requires
            old(grid).wf(),
            old(grid).width > 0,
            old(grid).height > 0,
        ensures
            final(grid).wf(),
            final(grid).same_frame(old(grid)),
            final(grid).cells() == rasterize_all(
                old(grid).cells(),
                old(grid).frame(),
                element_views(elements@),
            ),
            r == rasterize_count(old(grid).cells(), old(grid).frame(), element_views(elements@)),
    {
        let ghost frame = grid.frame();
        let ghost start = grid.cells();
        let ghost views = element_views(elements@);
        let mut total: usize = 0;
        let mut i: usize = 0;
        proof {
            grid.lemma_cells();
            assert(views.take(0) =~= Seq::<ElementView>::empty());
        }
        while i < elements.len()
            invariant
                i <= elements@.len(),
                views == element_views(elements@),
                grid.wf(),
                grid.same_frame(old(grid)),
                frame == old(grid).frame(),
                frame.width > 0,
                frame.height > 0,
                has_dimensions(start, frame.width, frame.height),
                grid.cells() == rasterize_all(start, frame, views.take(i as int)),
                total == rasterize_count(start, frame, views.take(i as int)),
            decreases elements@.len() - i,
        {
            proof {
                let next = views.take(i + 1);
                assert(next.drop_last() =~= views.take(i as int));
                assert(next.last() == elements@[i as int]@);
                lemma_rasterize_weight(start, frame, next);
                lemma_weight_bound(rasterize_all(start, frame, next), frame.width, frame.height);
            }
            let drawn = self.rasterize_element(&elements[i], grid);
            total = total + drawn;
            i += 1;
        }
        assert(views.take(elements@.len() as int) =~= views);
        total
    }
}

/// The further key/value pairs that a generation records: the dimensions
/// of the grid, and the edge of a tile in metres, each in decimal.
pub open spec fn generation_extra(width: nat, height: nat, mm_per_tile: nat) -> Map<
    Seq<char>,
    Seq<char>,
> {
    Map::<Seq<char>, Seq<char>>::empty().insert("grid_width"@, decimal(width)).insert(
        "grid_height"@,
        decimal(height),
    ).insert("meters_per_tile"@, fixed_decimal(mm_per_tile as int, 1000, 3))
}

/// Whether `grid` is the grid that generation makes of the elements for
/// the given input and configuration with grids of up to `greatest`.
pub open spec fn is_generated(
    grid: &TileGrid,
    elements: Seq<ElementView>,
    input: &GridInput,
    config: &OsmConfig,
    greatest: (usize, usize),
) -> bool {
    &&& grid.wf()
    &&& (grid.width as int, grid.height as int) == grid_dimensions(
        input.bounding_box,
        config.grid_resolution as int,
        greatest,
    )
    &&& grid.bounding_box == input.bounding_box
    &&& is_tile_edge(
        input.area_m2 as int,
        grid.width * grid.height,
        config.tile_size_mm as int,
        grid.mm_per_tile as int,
    )
    &&& grid.cells() == rasterize_all(
        empty_cells(grid.width as int, grid.height as int),
        grid.frame(),
        elements,
    )
    &&& grid.metadata.elements_processed == elements.len() % 0x1_0000_0000
    &&& grid.metadata.tiles_populated == rasterize_count(
        empty_cells(grid.width as int, grid.height as int),
        grid.frame(),
        elements,
    )
    &&& grid.metadata.algorithm@ == "default_rasterization"@
    &&& grid.metadata.extra@ == generation_extra(
        grid.width as nat,
        grid.height as nat,
        grid.mm_per_tile as nat,
    )
}

impl DefaultGridGenerator {
    /// Generates the grid for decoded map data: parses the elements, sizes
    /// an empty grid for the bounding box, draws the elements onto it in
    /// order, and records what was done. Data that does not parse gives
    /// the parse error and no grid.
    pub fn generate_grid(&self, input: &GridInput, config: &OsmConfig) -> (r: Result<
        TileGrid,
        OsmTilesError,
    >)
        requires
            self.max_grid_size.0 > 0,
            self.max_grid_size.1 > 0,
            fits_memory(self.max_grid_size.0 as int, self.max_grid_size.1 as int),
        ensures
            match r {
                Ok(grid) => parse_spec(input.format, input.decoded) matches Ok(elements)
                    && is_generated(&grid, elements, input, config, self.max_grid_size),
                Err(e) => e@ is Parse && parse_spec(input.format, input.decoded) == Err::<
                    Seq<ElementView>,
                    Seq<char>,
                >(e@->Parse_0),
            },
    {
        let start_time = instant_now();
        let elements = match self.parser.parse(input.format, &input.decoded) {
            Ok(elements) => elements,
            Err(e) => {
                return Err(e);
            },
        };
        let (grid_width, grid_height) = self.calculate_grid_dimensions(
            config,
            &input.bounding_box,
        );
        proof {
            assert(grid_width * grid_height * 11 <= self.max_grid_size.0 * self.max_grid_size.1
                * 11) by (nonlinear_arith)
                requires
                    0 <= grid_width <= self.max_grid_size.0,
                    0 <= grid_height <= self.max_grid_size.1,
            ;
            assert(grid_width * grid_height <= grid_width * grid_height * 11) by (nonlinear_arith);
        }
        let mm_per_tile = self.calculate_meters_per_tile(
            config,
            input.area_m2,
            (grid_width, grid_height),
        );
        let mut grid = TileGrid::new(grid_width, grid_height, input.bounding_box, mm_per_tile);
        proof {
            grid.lemma_cells();
            assert(grid.cells() =~= empty_cells(grid_width as int, grid_height as int)) by {
                assert forall|y: int| 0 <= y < grid_height implies #[trigger] grid.cells()[y]
                    =~= empty_cells(grid_width as int, grid_height as int)[y] by {
                    assert forall|x: int| 0 <= x < grid_width implies grid.cells()[y][x]
                        == TileView::empty() by {
                        assert(grid.in_bounds(x, y));
                        assert(grid.at(x, y) == TileView::empty());
                    }
                }
            }
        }
        let total = self.rasterize_elements(&elements, &mut grid);
        let generation_time = elapsed_millis(&start_time);
        grid.metadata.elements_processed = ((elements.len() as u64) % 0x1_0000_0000) as u32;
        grid.metadata.tiles_populated = total;
        grid.metadata.generation_time_ms = generation_time;
        grid.metadata.algorithm = String::from_str("default_rasterization");
        grid.metadata.extra.insert(String::from_str("grid_width"), usize_to_string(grid_width));
        grid.metadata.extra.insert(String::from_str("grid_height"), usize_to_string(grid_height));
        grid.metadata.extra.insert(
            String::from_str("meters_per_tile"),
            fixed_to_string(mm_per_tile as i64, 1000, 3),
        );
        Ok(grid)
    }
}

impl Default for DefaultGridGenerator {
    fn default() -> (r: Self)
        ensures
            r.max_grid_size == (5000usize, 5000usize),
    {
        DefaultGridGenerator::new()
    }
}

} // verus!
