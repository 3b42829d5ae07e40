//! Map elements and the rules that give each of them a tile type.

use vstd::prelude::*;
use crate::arith::floor_div;
use crate::tags::TagMap;
use crate::text::{joined, str_eq};
use crate::tile::{TileKind, TileMetadata, TileMetadataView, TileType, FULL_CONFIDENCE};

verus! {

/// The kind of a map element.
#[derive(Debug, Clone, Copy, PartialEq, Eq, Structural)]
pub enum OsmElementType {
    Node,
    Way,
    Relation,
}

/// A map element: an identifier, a kind, tags, and the points of its
/// geometry as latitude and longitude in coordinate units. One point
/// stands for a place, more for a line; a line that ends where it starts
/// is a polygon.
#[derive(Debug)]
pub struct OsmElement {
    pub id: i64,
    pub element_type: OsmElementType,
    pub tags: TagMap,
    pub geometry: Vec<(i32, i32)>,
}

/// The mathematical model of an [`OsmElement`].
pub struct ElementView {
    pub id: i64,
    pub element_type: OsmElementType,
    pub tags: Map<Seq<char>, Seq<char>>,
    pub geometry: Seq<(i32, i32)>,
}

impl View for OsmElement {
    type V = ElementView;

    open spec fn view(&self) -> ElementView {
        ElementView {
            id: self.id,
            element_type: self.element_type,
            tags: self.tags@,
            geometry: self.geometry@,
        }
    }
}

/// Whether the tags bind `key` to exactly `value`.
pub open spec fn tag_is(tags: Map<Seq<char>, Seq<char>>, key: Seq<char>, value: Seq<char>) -> bool {
    tags.contains_key(key) && tags[key] == value
}

/// The kind of area that a `building` or `landuse` value names, if it
/// names one of the three known uses.
pub open spec fn use_kind(value: Seq<char>) -> Option<TileKind> {
    if value == "residential"@ {
        Some(TileKind::Residential)
    } else if value == "commercial"@ || value == "retail"@ {
        Some(TileKind::Commercial)
    } else if value == "industrial"@ {
        Some(TileKind::Industrial)
    } else {
        None
    }
}

/// Whether the tags describe green space.
pub open spec fn is_green(tags: Map<Seq<char>, Seq<char>>) -> bool {
    tag_is(tags, "leisure"@, "park"@) || tag_is(tags, "leisure"@, "garden"@) || tag_is(
        tags,
        "landuse"@,
        "forest"@,
    ) || tag_is(tags, "natural"@, "wood"@) || tag_is(tags, "landuse"@, "grass"@)
}

/// The kind of tile that a set of tags stands for. The rules are tried in
/// this order and the first that applies decides: building, highway,
/// water, green space, railway, parking, amenity, tourism, land use.
/// Tags that meet none of them give an empty tile.
pub open spec fn classify(tags: Map<Seq<char>, Seq<char>>) -> TileKind {
    if tags.contains_key("building"@) {
        match use_kind(tags["building"@]) {
            Some(kind) => kind,
            None => TileKind::Building,
        }
    } else if tags.contains_key("highway"@) {
        TileKind::Road
    } else if tags.contains_key("waterway"@) || tag_is(tags, "natural"@, "water"@) {
        TileKind::Water
    } else if is_green(tags) {
        TileKind::GreenSpace
    } else if tags.contains_key("railway"@) {
        TileKind::Railway
    } else if tag_is(tags, "amenity"@, "parking"@) || tag_is(tags, "landuse"@, "parking"@) {
        TileKind::Parking
    } else if tags.contains_key("amenity"@) {
        TileKind::Amenity
    } else if tags.contains_key("tourism"@) {
        TileKind::Tourism
    } else if tags.contains_key("landuse"@) {
        match use_kind(tags["landuse"@]) {
            Some(kind) => kind,
            None => TileKind::Custom("landuse_"@ + tags["landuse"@]),
        }
    } else {
        TileKind::Empty
    }
}

/// The sum of the latitudes of the points.
pub open spec fn latitude_sum(points: Seq<(i32, i32)>) -> int
    decreases points.len(),
{
    if points.len() == 0 {
        0
    } else {
        latitude_sum(points.drop_last()) + points.last().0
    }
}

/// The sum of the longitudes of the points.
pub open spec fn longitude_sum(points: Seq<(i32, i32)>) -> int
    decreases points.len(),
{
    if points.len() == 0 {
        0
    } else {
        longitude_sum(points.drop_last()) + points.last().1
    }
}

/// Whether `bounds`, given as least latitude, least longitude, greatest
/// latitude and greatest longitude, is the tightest box round the points.
pub open spec fn is_extent(points: Seq<(i32, i32)>, bounds: (i32, i32, i32, i32)) -> bool {
    &&& forall|i: int|
        0 <= i < points.len() ==> bounds.0 <= (#[trigger] points[i]).0 <= bounds.2 && bounds.1
            <= points[i].1 <= bounds.3
    &&& exists|i: int| 0 <= i < points.len() && (#[trigger] points[i]).0 == bounds.0
    &&& exists|i: int| 0 <= i < points.len() && (#[trigger] points[i]).1 == bounds.1
    &&& exists|i: int| 0 <= i < points.len() && (#[trigger] points[i]).0 == bounds.2
    &&& exists|i: int| 0 <= i < points.len() && (#[trigger] points[i]).1 == bounds.3
}

/// The use that a `building` or `landuse` value names.
fn known_use(value: &str) -> (r: Option<TileType>)
    ensures
        match r {
            Some(t) => use_kind(value@) == Some(t@),
            None => use_kind(value@) is None,
        },
{
    if str_eq(value, "residential") {
        Some(TileType::Residential)
    } else if str_eq(value, "commercial") || str_eq(value, "retail") {
        Some(TileType::Commercial)
    } else if str_eq(value, "industrial") {
        Some(TileType::Industrial)
    } else {
        None
    }
}

impl OsmElement {
    /// The tile type that the element's tags stand for.
    pub fn to_tile_type(&self) -> (r: TileType)
        ensures
            r@ == classify(self.tags@),
    {
        let tags = &self.tags;
        if let Some(value) = tags.get("building") {
            match known_use(value.as_str()) {
                Some(t) => t,
                None => TileType::Building,
            }
        } else if tags.contains_key("highway") {
            TileType::Road
        } else if tags.contains_key("waterway") || tags.has("natural", "water") {
            TileType::Water
        } else if tags.has("leisure", "park") || tags.has("leisure", "garden") || tags.has(
            "landuse",
            "forest",
        ) || tags.has("natural", "wood") || tags.has("landuse", "grass") {
            TileType::GreenSpace
        } else if tags.contains_key("railway") {
            TileType::Railway
        } else if tags.has("amenity", "parking") || tags.has("landuse", "parking") {
            TileType::Parking
        } else if tags.contains_key("amenity") {
            TileType::Amenity
        } else if tags.contains_key("tourism") {
            TileType::Tourism
        } else if let Some(value) = tags.get("landuse") {
            match known_use(value.as_str()) {
                Some(t) => t,
                None => TileType::Custom(joined("landuse_", value.as_str())),
            }
        } else {
            TileType::Empty
        }
    }

    /// The metadata of a tile drawn from this element: its identifier, its
    /// tags and full confidence.
    pub fn to_tile_metadata(&self) -> (r: TileMetadata)
        ensures
            r@ == (TileMetadataView {
                osm_ids: seq![self.id],
                tags: self.tags@,
                confidence: FULL_CONFIDENCE,
            }),
    {
        let mut osm_ids: Vec<i64> = Vec::new();
        osm_ids.push(self.id);
        assert(osm_ids@ =~= seq![self.id]);
        TileMetadata { osm_ids, tags: self.tags.clone(), confidence: FULL_CONFIDENCE }
    }

    /// The mean of the points of the geometry, each coordinate rounded
    /// towards negative infinity; `None` without points.
    pub fn center_point(&self) -> (r: Option<(i32, i32)>)
        ensures
            r is Some == (self.geometry@.len() > 0),
            r matches Some((lat, lon)) ==> lat == latitude_sum(self.geometry@) / (
            self.geometry@.len() as int) && lon == longitude_sum(self.geometry@) / (
            self.geometry@.len() as int),
    {
        let n = self.geometry.len();
        if n == 0 {
            return None;
        }
        let mut lat_sum: i128 = 0;
        let mut lon_sum: i128 = 0;
        let mut i: usize = 0;
        while i < n
            invariant
                n == self.geometry@.len(),
                i <= n,
                lat_sum == latitude_sum(self.geometry@.take(i as int)),
                lon_sum == longitude_sum(self.geometry@.take(i as int)),
                i * (-0x8000_0000) <= lat_sum <= i * 0x7fff_ffff,
                i * (-0x8000_0000) <= lon_sum <= i * 0x7fff_ffff,
            decreases n - i,
        {
            let (lat, lon) = self.geometry[i];
            proof {
                let next = self.geometry@.take(i + 1);
                assert(next.drop_last() =~= self.geometry@.take(i as int));
                assert(next.last() == self.geometry@[i as int]);
            }
            lat_sum = lat_sum + lat as i128;
            lon_sum = lon_sum + lon as i128;
            i += 1;
        }
        assert(self.geometry@.take(n as int) =~= self.geometry@);
        let lat: i128 = floor_div(lat_sum, n as i128);
        let lon: i128 = floor_div(lon_sum, n as i128);
        proof {
            crate::arith::lemma_quotient_bounds(lat_sum as int, n as int);
            crate::arith::lemma_quotient_bounds(lon_sum as int, n as int);
            assert(-0x8000_0000 <= lat <= 0x7fff_ffff) by (nonlinear_arith)
                requires
                    n > 0,
                    n * lat <= lat_sum < n * lat + n,
                    n * (-0x8000_0000) <= lat_sum <= n * 0x7fff_ffff,
            ;
            assert(-0x8000_0000 <= lon <= 0x7fff_ffff) by (nonlinear_arith)
                requires
                    n > 0,
                    n * lon <= lon_sum < n * lon + n,
                    n * (-0x8000_0000) <= lon_sum <= n * 0x7fff_ffff,
            ;
        }
        Some((lat as i32, lon as i32))
    }

    /// The tightest box round the points of the geometry, as least
    /// latitude, least longitude, greatest latitude and greatest
    /// longitude; `None` without points.
    pub fn bounding_box(&self) -> (r: Option<(i32, i32, i32, i32)>)
        ensures
            r is Some == (self.geometry@.len() > 0),
            r matches Some(bounds) ==> is_extent(self.geometry@, bounds),
    {
        points_extent(&self.geometry)
    }
}

/// The tightest box round the points, as least latitude, least longitude,
/// greatest latitude and greatest longitude; `None` without points.
pub fn points_extent(points: &Vec<(i32, i32)>) -> (r: Option<(i32, i32, i32, i32)>)
    ensures
        r is Some == (points@.len() > 0),
        r matches Some(bounds) ==> is_extent(points@, bounds),
{
    if points.len() == 0 {
        return None;
    }
    let (first_lat, first_lon) = points[0];
    let mut min_lat: i32 = first_lat;
    let mut max_lat: i32 = first_lat;
    let mut min_lon: i32 = first_lon;
    let mut max_lon: i32 = first_lon;
    let mut i: usize = 1;
    proof {
        let first = points@.take(1);
        assert(first[0] == (first_lat, first_lon));
    }
    while i < points.len()
        invariant
            1 <= i <= points@.len(),
            is_extent(points@.take(i as int), (min_lat, min_lon, max_lat, max_lon)),
        decreases points@.len() - i,
    {
        let (lat, lon) = points[i];
        let ghost before = points@.take(i as int);
        let ghost after = points@.take(i + 1);
        proof {
            let a = choose|k: int| 0 <= k < before.len() && (#[trigger] before[k]).0 == min_lat;
            let b = choose|k: int| 0 <= k < before.len() && (#[trigger] before[k]).1 == min_lon;
            let c = choose|k: int| 0 <= k < before.len() && (#[trigger] before[k]).0 == max_lat;
            let d = choose|k: int| 0 <= k < before.len() && (#[trigger] before[k]).1 == max_lon;
            assert(after[a] == before[a]);
            assert(after[b] == before[b]);
            assert(after[c] == before[c]);
            assert(after[d] == before[d]);
            assert(after[i as int] == (lat, lon));
        }
        if lat < min_lat {
            min_lat = lat;
        }
        if lat > max_lat {
            max_lat = lat;
        }
        if lon < min_lon {
            min_lon = lon;
        }
        if lon > max_lon {
            max_lon = lon;
        }
        proof {
            let bounds = (min_lat, min_lon, max_lat, max_lon);
            assert forall|k: int| 0 <= k < after.len() implies bounds.0 <= (#[trigger] after[k]).0
                <= bounds.2 && bounds.1 <= after[k].1 <= bounds.3 by {
                if k < i {
                    assert(after[k] == before[k]);
                }
            }
        }
        i += 1;
    }
    assert(points@.take(points@.len() as int) =~= points@);
    Some((min_lat, min_lon, max_lat, max_lon))
}

impl Clone for OsmElement {
    fn clone(&self) -> (r: Self)
        ensures
            r@ == self@,
    {
        let mut geometry: Vec<(i32, i32)> = Vec::new();
        let mut i: usize = 0;
        while i < self.geometry.len()
            invariant
                i <= self.geometry@.len(),
                geometry@ == self.geometry@.take(i as int),
            decreases self.geometry@.len() - i,
        {
            geometry.push(self.geometry[i]);
            assert(geometry@ =~= self.geometry@.take(i + 1));
            i += 1;
        }
        assert(geometry@ =~= self.geometry@);
        OsmElement {
            id: self.id,
            element_type: self.element_type,
            tags: self.tags.clone(),
            geometry,
        }
    }
}

} // verus!
