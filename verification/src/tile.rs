//! Tile categories, their priorities, and the tiles that fill a grid.

use vstd::prelude::*;
use vstd::std_specs::cmp::PartialEqSpecImpl;
use crate::tags::TagMap;
use crate::text::str_eq;

verus! {

/// The category of a tile.
#[derive(Debug, Eq, Hash)]
pub enum TileType {
    /// Nothing known.
    Empty,
    /// Road or highway.
    Road,
    /// Building.
    Building,
    /// River, lake or other water.
    Water,
    /// Park, forest or other green space.
    GreenSpace,
    /// Railway.
    Railway,
    /// Parking area.
    Parking,
    /// Amenity such as a cafe or a shop.
    Amenity,
    /// Tourism feature.
    Tourism,
    /// Industrial area.
    Industrial,
    /// Residential area.
    Residential,
    /// Commercial area.
    Commercial,
    /// A category outside the catalogue, known by its name.
    Custom(String),
}

/// The mathematical model of a [`TileType`]: the same variants, with the
/// name of a custom category as a sequence of characters.
pub enum TileKind {
    Empty,
    Road,
    Building,
    Water,
    GreenSpace,
    Railway,
    Parking,
    Amenity,
    Tourism,
    Industrial,
    Residential,
    Commercial,
    Custom(Seq<char>),
}

impl TileKind {
    /// The priority that decides which of two kinds keeps a contested cell.
    pub open spec fn priority(self) -> u8 {
        match self {
            TileKind::Empty => 0,
            TileKind::GreenSpace => 1,
            TileKind::Water => 2,
            TileKind::Residential => 3,
            TileKind::Commercial => 4,
            TileKind::Industrial => 5,
            TileKind::Parking => 6,
            TileKind::Road => 7,
            TileKind::Railway => 8,
            TileKind::Building => 9,
            TileKind::Amenity => 10,
            TileKind::Tourism => 11,
            TileKind::Custom(_) => 5,
        }
    }

    /// The human-readable name.
    pub open spec fn name(self) -> Seq<char> {
        match self {
            TileKind::Empty => "empty"@,
            TileKind::Road => "road"@,
            TileKind::Building => "building"@,
            TileKind::Water => "water"@,
            TileKind::GreenSpace => "green_space"@,
            TileKind::Railway => "railway"@,
            TileKind::Parking => "parking"@,
            TileKind::Amenity => "amenity"@,
            TileKind::Tourism => "tourism"@,
            TileKind::Industrial => "industrial"@,
            TileKind::Residential => "residential"@,
            TileKind::Commercial => "commercial"@,
            TileKind::Custom(name) => name,
        }
    }

    /// The suggested display colour, as red, green and blue.
    pub open spec fn color(self) -> (u8, u8, u8) {
        match self {
            TileKind::Empty => (240, 240, 240),
            TileKind::Road => (128, 128, 128),
            TileKind::Building => (139, 69, 19),
            TileKind::Water => (30, 144, 255),
            TileKind::GreenSpace => (34, 139, 34),
            TileKind::Railway => (105, 105, 105),
            TileKind::Parking => (169, 169, 169),
            TileKind::Amenity => (255, 165, 0),
            TileKind::Tourism => (255, 20, 147),
            TileKind::Industrial => (128, 0, 128),
            TileKind::Residential => (255, 255, 0),
            TileKind::Commercial => (255, 0, 0),
            TileKind::Custom(_) => (200, 200, 200),
        }
    }

    /// Whether the interior of a closed outline of this kind is filled.
    pub open spec fn is_filled(self) -> bool {
        self is Building || self is Water || self is GreenSpace || self is Parking
            || self is Residential || self is Commercial || self is Industrial
    }
}

impl View for TileType {
    type V = TileKind;

    open spec fn view(&self) -> TileKind {
        match self {
            TileType::Empty => TileKind::Empty,
            TileType::Road => TileKind::Road,
            TileType::Building => TileKind::Building,
            TileType::Water => TileKind::Water,
            TileType::GreenSpace => TileKind::GreenSpace,
            TileType::Railway => TileKind::Railway,
            TileType::Parking => TileKind::Parking,
            TileType::Amenity => TileKind::Amenity,
            TileType::Tourism => TileKind::Tourism,
            TileType::Industrial => TileKind::Industrial,
            TileType::Residential => TileKind::Residential,
            TileType::Commercial => TileKind::Commercial,
            TileType::Custom(name) => TileKind::Custom(name@),
        }
    }
}

impl PartialEq for TileType {
    fn eq(&self, other: &Self) -> (r: bool) {
        match (self, other) {
            (TileType::Empty, TileType::Empty) => true,
            (TileType::Road, TileType::Road) => true,
            (TileType::Building, TileType::Building) => true,
            (TileType::Water, TileType::Water) => true,
            (TileType::GreenSpace, TileType::GreenSpace) => true,
            (TileType::Railway, TileType::Railway) => true,
            (TileType::Parking, TileType::Parking) => true,
            (TileType::Amenity, TileType::Amenity) => true,
            (TileType::Tourism, TileType::Tourism) => true,
            (TileType::Industrial, TileType::Industrial) => true,
            (TileType::Residential, TileType::Residential) => true,
            (TileType::Commercial, TileType::Commercial) => true,
            (TileType::Custom(a), TileType::Custom(b)) => str_eq(a.as_str(), b.as_str()),
            _ => false,
        }
    }
}

impl PartialEqSpecImpl for TileType {
    open spec fn obeys_eq_spec() -> bool {
        true
    }

    open spec fn eq_spec(&self, other: &Self) -> bool {
        self@ == other@
    }
}

impl Clone for TileType {
    fn clone(&self) -> (r: Self)
        ensures
            r@ == self@,
    {
        match self {
            TileType::Empty => TileType::Empty,
            TileType::Road => TileType::Road,
            TileType::Building => TileType::Building,
            TileType::Water => TileType::Water,
            TileType::GreenSpace => TileType::GreenSpace,
            TileType::Railway => TileType::Railway,
            TileType::Parking => TileType::Parking,
            TileType::Amenity => TileType::Amenity,
            TileType::Tourism => TileType::Tourism,
            TileType::Industrial => TileType::Industrial,
            TileType::Residential => TileType::Residential,
            TileType::Commercial => TileType::Commercial,
            TileType::Custom(name) => TileType::Custom(name.clone()),
        }
    }
}

impl Default for TileType {
    fn default() -> (r: Self)
        ensures
            r@ == TileKind::Empty,
    {
        TileType::Empty
    }
}

impl TileType {
    /// The human-readable name of this tile type.
    pub fn name(&self) -> (r: &str)
        ensures
            r@ == self@.name(),
    {
        match self {
            TileType::Empty => "empty",
            TileType::Road => "road",
            TileType::Building => "building",
            TileType::Water => "water",
            TileType::GreenSpace => "green_space",
            TileType::Railway => "railway",
            TileType::Parking => "parking",
            TileType::Amenity => "amenity",
            TileType::Tourism => "tourism",
            TileType::Industrial => "industrial",
            TileType::Residential => "residential",
            TileType::Commercial => "commercial",
            TileType::Custom(name) => name.as_str(),
        }
    }

    /// The suggested display colour, as red, green and blue.
    pub fn default_color(&self) -> (r: (u8, u8, u8))
        ensures
            r == self@.color(),
    {
        match self {
            TileType::Empty => (240, 240, 240),
            TileType::Road => (128, 128, 128),
            TileType::Building => (139, 69, 19),
            TileType::Water => (30, 144, 255),
            TileType::GreenSpace => (34, 139, 34),
            TileType::Railway => (105, 105, 105),
            TileType::Parking => (169, 169, 169),
            TileType::Amenity => (255, 165, 0),
            TileType::Tourism => (255, 20, 147),
            TileType::Industrial => (128, 0, 128),
            TileType::Residential => (255, 255, 0),
            TileType::Commercial => (255, 0, 0),
            TileType::Custom(_) => (200, 200, 200),
        }
    }

    /// Whether one can move across a tile of this type.
    pub fn is_navigable(&self) -> (r: bool)
        ensures
            r == (self@ is Road || self@ is Empty || self@ is Parking),
    {
        match self {
            TileType::Road | TileType::Empty | TileType::Parking => true,
            _ => false,
        }
    }

    /// Whether this type stands for a structure.
    pub fn is_structure(&self) -> (r: bool)
        ensures
            r == (self@ is Building || self@ is Amenity || self@ is Tourism),
    {
        match self {
            TileType::Building | TileType::Amenity | TileType::Tourism => true,
            _ => false,
        }
    }

    /// The placement priority: a higher priority overwrites a lower one.
    pub fn priority(&self) -> (r: u8)
        ensures
            r == self@.priority(),
            r <= 11,
    {
        match self {
            TileType::Empty => 0,
            TileType::GreenSpace => 1,
            TileType::Water => 2,
            TileType::Residential => 3,
            TileType::Commercial => 4,
            TileType::Industrial => 5,
            TileType::Parking => 6,
            TileType::Road => 7,
            TileType::Railway => 8,
            TileType::Building => 9,
            TileType::Amenity => 10,
            TileType::Tourism => 11,
            TileType::Custom(_) => 5,
        }
    }

    /// Whether the interior of a closed outline of this type is filled.
    pub fn is_filled(&self) -> (r: bool)
        ensures
            r == self@.is_filled(),
    {
        match self {
            TileType::Building
            | TileType::Water
            | TileType::GreenSpace
            | TileType::Parking
            | TileType::Residential
            | TileType::Commercial
            | TileType::Industrial => true,
            _ => false,
        }
    }
}

/// The confidence of a tile whose provenance is certain, in thousandths.
pub const FULL_CONFIDENCE: u16 = 1000;

/// Where a tile came from.
#[derive(Debug)]
pub struct TileMetadata {
    /// Identifiers of the elements that contributed to the tile.
    pub osm_ids: Vec<i64>,
    /// Tags of those elements.
    pub tags: TagMap,
    /// Confidence in thousandths, from 0 to 1000.
    pub confidence: u16,
}

/// The mathematical model of a [`TileMetadata`].
pub struct TileMetadataView {
    pub osm_ids: Seq<i64>,
    pub tags: Map<Seq<char>, Seq<char>>,
    pub confidence: u16,
}

impl View for TileMetadata {
    type V = TileMetadataView;

    open spec fn view(&self) -> TileMetadataView {
        TileMetadataView { osm_ids: self.osm_ids@, tags: self.tags@, confidence: self.confidence }
    }
}

impl Default for TileMetadata {
    fn default() -> (r: Self)
        ensures
            r@ == (TileMetadataView {
                osm_ids: Seq::empty(),
                tags: Map::empty(),
                confidence: FULL_CONFIDENCE,
            }),
    {
        TileMetadata { osm_ids: Vec::new(), tags: TagMap::new(), confidence: FULL_CONFIDENCE }
    }
}

impl Clone for TileMetadata {
    fn clone(&self) -> (r: Self)
        ensures
            r@ == self@,
    {
        let mut osm_ids: Vec<i64> = Vec::new();
        let mut i: usize = 0;
        while i < self.osm_ids.len()
            invariant
                i <= self.osm_ids@.len(),
                osm_ids@ == self.osm_ids@.subrange(0, i as int),
            decreases self.osm_ids@.len() - i,
        {
            osm_ids.push(self.osm_ids[i]);
            assert(osm_ids@ =~= self.osm_ids@.subrange(0, i + 1));
            i += 1;
        }
        assert(osm_ids@ =~= self.osm_ids@);
        TileMetadata { osm_ids, tags: self.tags.clone(), confidence: self.confidence }
    }
}

/// One cell of a grid: a type, and optionally where it came from.
#[derive(Debug)]
pub struct Tile {
    pub tile_type: TileType,
    pub metadata: Option<TileMetadata>,
}

/// The mathematical model of a [`Tile`].
pub struct TileView {
    pub kind: TileKind,
    pub metadata: Option<TileMetadataView>,
}

impl TileView {
    /// The tile that every cell of a fresh grid holds.
    pub open spec fn empty() -> TileView {
        TileView { kind: TileKind::Empty, metadata: None }
    }

    /// Whether `other` may replace this tile: only a strictly higher
    /// priority wins, so among equals the first writer stays.
    pub open spec fn yields_to(self, other: TileView) -> bool {
        other.kind.priority() > self.kind.priority()
    }
}

impl View for Tile {
    type V = TileView;

    open spec fn view(&self) -> TileView {
        TileView {
            kind: self.tile_type@,
            metadata: match self.metadata {
                Some(m) => Some(m@),
                None => None,
            },
        }
    }
}

impl Default for Tile {
    fn default() -> (r: Self)
        ensures
            r@ == TileView::empty(),
    {
        Tile { tile_type: TileType::Empty, metadata: None }
    }
}

impl Clone for Tile {
    fn clone(&self) -> (r: Self)
        ensures
            r@ == self@,
    {
        Tile {
            tile_type: self.tile_type.clone(),
            metadata: match &self.metadata {
                Some(m) => Some(m.clone()),
                None => None,
            },
        }
    }
}

impl Tile {
    /// A tile of the given type without metadata.
    pub fn new(tile_type: TileType) -> (r: Self)
        ensures
            r@ == (TileView { kind: tile_type@, metadata: None }),
    {
        Tile { tile_type, metadata: None }
    }

    /// A tile of the given type with metadata.
    pub fn with_metadata(tile_type: TileType, metadata: TileMetadata) -> (r: Self)
        ensures
            r@ == (TileView { kind: tile_type@, metadata: Some(metadata@) }),
    {
        Tile { tile_type, metadata: Some(metadata) }
    }

    /// Whether `other` may replace this tile.
    pub fn can_be_overwritten_by(&self, other: &Tile) -> (r: bool)
        ensures
            r == self@.yields_to(other@),
    {
        other.tile_type.priority() > self.tile_type.priority()
    }
}

} // verus!
