//! The provider that takes map data from a file: what it makes of the
//! name and of the text of the file. Reading the file is not done here.

use vstd::prelude::*;
use vstd::string::*;
use vstd::utf8::*;
use crate::data::{OsmData, OsmDataFormat, OsmMetadata};
use crate::element::{is_extent, points_extent};
use crate::error::{ErrorView, OsmTilesError};
use crate::mock::ProviderCapabilities;
use crate::parse::{document_points, RawDocument};
use crate::region::{BoundingBox, Region};
use crate::text::{decimal, joined, usize_to_string};

verus! {

/// Whether the bytes of a path end with a point and the given
/// extension, and the file name has at least one byte before that point:
/// the byte before the point is there and is no `/`.
pub open spec fn ends_with_extension(path: Seq<u8>, extension: Seq<u8>) -> bool {
    let start = path.len() - extension.len();
    &&& start >= 2
    &&& path.subrange(start, path.len() as int) == extension
    &&& path[start - 1] == 0x2e
    &&& path[start - 2] != 0x2f
}

/// The format that the name of a file stands for: XML where it ends with
/// `.xml` or `.osm`, JSON for every other name.
pub open spec fn path_format(path: Seq<char>) -> OsmDataFormat {
    if ends_with_extension(encode_utf8(path), encode_utf8("xml"@)) || ends_with_extension(
        encode_utf8(path),
        encode_utf8("osm"@),
    ) {
        OsmDataFormat::Xml
    } else {
        OsmDataFormat::Json
    }
}

/// Whether a path ends with a point and the given extension after a
/// file name that is not empty.
pub fn has_extension(path: &str, extension: &str) -> (r: bool)
    ensures
        r == ends_with_extension(encode_utf8(path@), encode_utf8(extension@)),
{
    let p = path.as_bytes();
    let e = extension.as_bytes();
    if p.len() < 2 || e.len() > p.len() - 2 {
        return false;
    }
    let start: usize = p.len() - e.len();
    if p[start - 1] != 0x2e || p[start - 2] == 0x2f {
        return false;
    }
    let mut i: usize = 0;
    let size: usize = p.len();
    while i < e.len()
        invariant
            i <= e@.len(),
            size == p@.len(),
            p@ == encode_utf8(path@),
            e@ == encode_utf8(extension@),
            start == p@.len() - e@.len(),
            start >= 2,
            forall|j: int| 0 <= j < i ==> p@[start + j] == e@[j],
        decreases e@.len() - i,
    {
        if p[start + i] != e[i] {
            assert(p@.subrange(start as int, p@.len() as int)[i as int] == p@[start + i]);
            return false;
        }
        i += 1;
    }
    assert(p@.subrange(start as int, p@.len() as int) =~= e@);
    true
}

/// The name of a format.
pub open spec fn format_name(format: OsmDataFormat) -> Seq<char> {
    match format {
        OsmDataFormat::Xml => "Xml"@,
        OsmDataFormat::Json => "Json"@,
    }
}

/// The bounding box that is taken where none is known: from the origin
/// one degree to the north and to the east.
pub open spec fn default_box() -> BoundingBox {
    BoundingBox { south: 0, west: 0, north: 10_000_000, east: 10_000_000 }
}

/// Whether `chosen` is the bounding box that is taken for the data of a
/// file: the one that is known; else, for JSON that could be decoded, the
/// tightest box round the points of its geometries, if there are any;
/// else the default.
pub open spec fn is_data_box(
    known: Option<BoundingBox>,
    format: OsmDataFormat,
    document: Option<&RawDocument>,
    chosen: BoundingBox,
) -> bool {
    let points = match document {
        Some(d) => match d.elements {
            Some(elements) => document_points(elements@),
            None => Seq::empty(),
        },
        None => Seq::empty(),
    };
    match known {
        Some(b) => chosen == b,
        None => if format == OsmDataFormat::Json && points.len() > 0 {
            is_extent(points, (chosen.south, chosen.west, chosen.north, chosen.east))
        } else {
            chosen == default_box()
        },
    }
}

/// The provider that takes map data from a file.
#[derive(Debug)]
pub struct FileProvider {
    /// The path of the file.
    pub file_path: String,
    /// The bounding box of the data, if it is known.
    pub known_bbox: Option<BoundingBox>,
}

impl FileProvider {
    /// A provider for the file at the given path.
    pub fn new(file_path: &str) -> (r: Self)
        ensures
            r.file_path@ == file_path@,
            r.known_bbox is None,
    {
        FileProvider { file_path: file_path.to_owned(), known_bbox: None }
    }

    /// The provider with the bounding box of its data.
    pub fn with_bbox(self, bbox: BoundingBox) -> (r: Self)
        ensures
            r.file_path == self.file_path,
            r.known_bbox == Some(bbox),
    {
        let mut provider = self;
        provider.known_bbox = Some(bbox);
        provider
    }

    /// The kind of this provider.
    pub fn provider_type(&self) -> (r: &'static str)
        ensures
            r@ == "file"@,
    {
        "file"
    }

    /// The format of the file, by the extension of its name.
    pub fn detect_format(&self) -> (r: OsmDataFormat)
        ensures
            r == path_format(self.file_path@),
    {
        if has_extension(self.file_path.as_str(), "xml") || has_extension(
            self.file_path.as_str(),
            "osm",
        ) {
            OsmDataFormat::Xml
        } else {
            OsmDataFormat::Json
        }
    }

    /// The tightest box round the points of the geometries of a decoded
    /// document; `None` if there is no point.
    pub fn extract_bbox(document: &RawDocument) -> (r: Option<BoundingBox>)
        ensures
            match document.elements {
                Some(elements) => {
                    &&& r is Some == (document_points(elements@).len() > 0)
                    &&& r matches Some(b) ==> is_extent(
                        document_points(elements@),
                        (b.south, b.west, b.north, b.east),
                    )
                },
                None => r is None,
            },
    {
        let points = document.geometry_points();
        match points_extent(&points) {
            Some((min_lat, min_lon, max_lat, max_lon)) => Some(
                BoundingBox::new(min_lat, min_lon, max_lat, max_lon),
            ),
            None => None,
        }
    }

    /// The bounding box of a region: a bounding box is itself; for every
    /// other region the box that is known of the file, or the default.
    pub fn resolve_region(&self, region: &Region) -> (r: BoundingBox)
        ensures
            r == match *region {
                Region::BoundingBox(b) => b,
                _ => match self.known_bbox {
                    Some(b) => b,
                    None => default_box(),
                },
            },
    {
        match region {
            Region::BoundingBox(b) => *b,
            _ => match self.known_bbox {
                Some(b) => b,
                None => BoundingBox::new(0, 0, 10_000_000, 10_000_000),
            },
        }
    }

    /// The bounding box of the data of the file: the one that is known;
    /// else, for JSON, the box round the points of the decoded document,
    /// if it has any; else the default.
    pub fn data_box(&self, format: OsmDataFormat, document: Option<&RawDocument>) -> (r:
        BoundingBox)
        ensures
            is_data_box(self.known_bbox, format, document, r),
    {
        match self.known_bbox {
            Some(b) => b,
            None => {
                let found = match (format, document) {
                    (OsmDataFormat::Json, Some(doc)) => Self::extract_bbox(doc),
                    _ => None,
                };
                match found {
                    Some(b) => b,
                    None => BoundingBox::new(0, 0, 10_000_000, 10_000_000),
                }
            },
        }
    }

    /// The data of the file from its text and, where the text is JSON
    /// that could be decoded, the decoded document. The size that is
    /// recorded is that of the text in bytes.
    pub fn loaded(&self, data: String, document: Option<&RawDocument>) -> (r: OsmData)
        ensures
            r.raw_data == data,
            r.format == path_format(self.file_path@),
            is_data_box(self.known_bbox, r.format, document, r.bounding_box),
            r.metadata.source@ == self.file_path@,
            r.metadata.provider_type@ == "file"@,
            r.metadata.extra@ == Map::<Seq<char>, Seq<char>>::empty().insert(
                "file_size"@,
                decimal(encode_utf8(data@).len()),
            ).insert("format"@, format_name(r.format)),
    {
        let format = self.detect_format();
        let bounding_box = self.data_box(format, document);
        let size = data.as_str().as_bytes().len();
        let name = match format {
            OsmDataFormat::Xml => "Xml",
            OsmDataFormat::Json => "Json",
        };
        let metadata = OsmMetadata::new(self.file_path.as_str(), self.provider_type()).with_extra(
            "file_size",
            usize_to_string(size).as_str(),
        ).with_extra("format", name);
        OsmData { raw_data: data, format, bounding_box, metadata }
    }

    /// The error for a file that cannot be read, with the reason.
    pub fn read_error(&self, reason: &str) -> (r: OsmTilesError)
        ensures
            r@ == ErrorView::Config(
                "Failed to read file '"@ + self.file_path@ + "': "@ + reason@,
            ),
    {
        let mut message = joined("Failed to read file '", self.file_path.as_str());
        message.append("': ");
        message.append(reason);
        OsmTilesError::Config(message)
    }

    /// The error for a file that is not there.
    pub fn missing_error(&self) -> (r: OsmTilesError)
        ensures
            r@ == ErrorView::Config("File not found: "@ + self.file_path@),
    {
        OsmTilesError::Config(joined("File not found: ", self.file_path.as_str()))
    }

    /// What this provider can do.
    pub fn capabilities(&self) -> (r: ProviderCapabilities)
        ensures
            !r.supports_real_time,
            !r.requires_network,
            !r.supports_geocoding,
            r.max_area_km2 is None,
            r.supported_formats@ == seq![OsmDataFormat::Json, OsmDataFormat::Xml],
            r.rate_limit_rpm is None,
            !r.wasm_compatible,
            r.notes matches Some(notes) && notes@ == "Local file-based OSM data"@,
    {
        let mut supported_formats: Vec<OsmDataFormat> = Vec::new();
        supported_formats.push(OsmDataFormat::Json);
        supported_formats.push(OsmDataFormat::Xml);
        assert(supported_formats@ =~= seq![OsmDataFormat::Json, OsmDataFormat::Xml]);
        ProviderCapabilities {
            supports_real_time: false,
            requires_network: false,
            supports_geocoding: false,
            max_area_km2: None,
            supported_formats,
            rate_limit_rpm: None,
            wasm_compatible: false,
            notes: Some(String::from_str("Local file-based OSM data")),
        }
    }
}

} // verus!
