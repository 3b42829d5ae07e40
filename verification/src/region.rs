//! Geographic regions in fixed-point degrees.

use vstd::prelude::*;

verus! {

/// How many coordinate units make one degree. A coordinate is an `i32`
/// that counts units of 1e-7 degree.
pub const UNITS_PER_DEGREE: i32 = 10_000_000;

/// A rectangle of latitudes and longitudes, in coordinate units. That
/// north is not below south and east not below west is the caller's
/// business; an inverted box contains no point.
#[derive(Debug, Clone, Copy, PartialEq, Eq, Structural)]
pub struct BoundingBox {
    /// Southern latitude boundary.
    pub south: i32,
    /// Western longitude boundary.
    pub west: i32,
    /// Northern latitude boundary.
    pub north: i32,
    /// Eastern longitude boundary.
    pub east: i32,
}

/// The midpoint of `a` and `b`, rounded towards negative infinity.
pub open spec fn midpoint(a: int, b: int) -> int {
    (a + b) / 2
}

/// The midpoint of two coordinates, rounded towards negative infinity.
pub fn coordinate_midpoint(a: i32, b: i32) -> (r: i32)
    ensures
        r == midpoint(a as int, b as int),
{
    let sum: i64 = a as i64 + b as i64;
    let half: i64 = if sum >= 0 {
        sum / 2
    } else {
        -((1 - sum) / 2)
    };
    half as i32
}

impl BoundingBox {
    /// The box with the given boundaries.
    pub fn new(south: i32, west: i32, north: i32, east: i32) -> (r: Self)
        ensures
            r == (BoundingBox { south, west, north, east }),
    {
        BoundingBox { south, west, north, east }
    }

    /// The width in coordinate units of longitude.
    pub open spec fn width_spec(self) -> int {
        self.east - self.west
    }

    /// The height in coordinate units of latitude.
    pub open spec fn height_spec(self) -> int {
        self.north - self.south
    }

    /// Whether the point lies in the box, boundaries included.
    pub open spec fn contains_spec(self, lat: int, lon: int) -> bool {
        self.south <= lat <= self.north && self.west <= lon <= self.east
    }

    /// The centre as latitude and longitude.
    pub fn center(&self) -> (r: (i32, i32))
        ensures
            r.0 == midpoint(self.south as int, self.north as int),
            r.1 == midpoint(self.west as int, self.east as int),
    {
        (coordinate_midpoint(self.south, self.north), coordinate_midpoint(self.west, self.east))
    }

    /// The width in coordinate units of longitude; negative for an
    /// inverted box.
    pub fn width(&self) -> (r: i64)
        ensures
            r == self.width_spec(),
    {
        self.east as i64 - self.west as i64
    }

    /// The height in coordinate units of latitude; negative for an
    /// inverted box.
    pub fn height(&self) -> (r: i64)
        ensures
            r == self.height_spec(),
    {
        self.north as i64 - self.south as i64
    }

    /// Whether the point lies in the box, boundaries included.
    pub fn contains(&self, lat: i32, lon: i32) -> (r: bool)
        ensures
            r == self.contains_spec(lat as int, lon as int),
    {
        lat >= self.south && lat <= self.north && lon >= self.west && lon <= self.east
    }
}

/// The ways to name the region that data is wanted for.
#[derive(Debug)]
pub enum Region {
    /// A city, to be resolved to coordinates by name.
    City { name: String },
    /// An explicit bounding box.
    BoundingBox(BoundingBox),
    /// A centre in coordinate units and a radius in metres.
    CenterRadius { lat: i32, lon: i32, radius_m: u32 },
}

impl Clone for Region {
    fn clone(&self) -> (r: Self)
        ensures
            r == *self,
    {
        match self {
            Region::City { name } => Region::City { name: name.clone() },
            Region::BoundingBox(b) => Region::BoundingBox(*b),
            Region::CenterRadius { lat, lon, radius_m } => Region::CenterRadius {
                lat: *lat,
                lon: *lon,
                radius_m: *radius_m,
            },
        }
    }
}

impl Region {
    /// The region of a named city.
    pub fn city(name: &str) -> (r: Self)
        ensures
            r matches Region::City { name: n } && n@ == name@,
    {
        Region::City { name: name.to_owned() }
    }

    /// The region of a bounding box.
    pub fn bbox(south: i32, west: i32, north: i32, east: i32) -> (r: Self)
        ensures
            r == Region::BoundingBox(BoundingBox { south, west, north, east }),
    {
        Region::BoundingBox(BoundingBox::new(south, west, north, east))
    }

    /// The region around a centre.
    pub fn center_radius(lat: i32, lon: i32, radius_m: u32) -> (r: Self)
        ensures
            r == (Region::CenterRadius { lat, lon, radius_m }),
    {
        Region::CenterRadius { lat, lon, radius_m }
    }
}

} // verus!
