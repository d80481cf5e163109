//! Read-only registry of the 27 administrative locations, with the national
//! boundary polygon parsed once at load and a fixed bounding rectangle.
//!
//! The polygon itself is opaque here: parsing and drawing belong to the
//! geometry library and the terminal painter. What this module owns is the
//! registry's shape — exactly one location per region ordinal — and the
//! lookup logic over it.

use vstd::prelude::*;

verus! {

use crate::status::REGION_COUNT;

/// Geographic bounding rectangle in milli-degree fixed-point coordinates:
/// a degree of longitude or latitude is 1000 units.
#[derive(Clone, Copy, PartialEq, Eq, Structural, Debug)]
pub struct BoundingBox {
    pub min_x: i64,
    pub min_y: i64,
    pub max_x: i64,
    pub max_y: i64,
}

/// One immutable location record: numeric id, canonical names.
#[derive(Debug)]
pub struct Location {
    /// Identifier the feed's region-id field refers to.
    pub location_uid: i32,
    /// Canonical local name.
    pub name: String,
    /// Romanized name.
    pub name_en: String,
}

impl Clone for Location {
    fn clone(&self) -> (r: Self)
        ensures
            r == *self,
    {
        Location {
            location_uid: self.location_uid,
            name: self.name.clone(),
            name_en: self.name_en.clone(),
        }
    }
}

/// The national boundary polygon, parsed once at load and held opaquely;
/// drawing it is the terminal painter's business, not this module's.
#[verifier::external_body]
#[derive(Debug)]
pub struct Boundary {
    inner: geo::Polygon,
}

/// Whether a text parses as a well-formed WKT polygon; parsing depends on
/// the text alone.
pub uninterp spec fn wkt_polygon_ok(s: Seq<char>) -> bool;

/// Relies on wkt::TryFromWkt::try_from_wkt_str: parses a WKT text into a
/// polygon; whether it succeeds is a function of the text alone.
#[verifier::external_body]
fn parse_wkt_boundary(s: &str) -> (r: Option<Boundary>)
    ensures
        r is Some <==> wkt_polygon_ok(s@),
{
    let parsed: Result<geo::Polygon, _> = wkt::TryFromWkt::try_from_wkt_str(s);
    match parsed {
        Ok(p) => Some(Boundary { inner: p }),
        Err(_) => None,
    }
}

/// Why the geographic registry could not be built; both are fatal at
/// startup, with no runtime fallback.
#[derive(Clone, Copy, PartialEq, Eq, Structural, Debug)]
pub enum GeoError {
    /// The boundary text is no well-formed WKT polygon.
    BadGeometry,
    /// The registry was not given exactly one location per region.
    WrongLocationCount { expected: usize, actual: usize },
}

/// The first location of the sequence carrying the given identifier.
pub open spec fn find_by_uid(locs: Seq<Location>, uid: i32) -> Option<Location>
    decreases locs.len(),
{
    if locs.len() == 0 {
        None
    } else if locs[0].location_uid == uid {
        Some(locs[0])
    } else {
        find_by_uid(locs.drop_first(), uid)
    }
}

/// The first location of the sequence carrying the given name.
pub open spec fn find_by_name(locs: Seq<Location>, name: Seq<char>) -> Option<Location>
    decreases locs.len(),
{
    if locs.len() == 0 {
        None
    } else if locs[0].name@ == name {
        Some(locs[0])
    } else {
        find_by_name(locs.drop_first(), name)
    }
}

/// A prefix without the identifier can be skipped without changing the
/// first match.
proof fn lemma_find_by_uid_skip(locs: Seq<Location>, uid: i32, k: int)
    requires
        0 <= k <= locs.len(),
        forall|j: int| 0 <= j < k ==> locs[j].location_uid != uid,
    ensures
        find_by_uid(locs, uid) == find_by_uid(locs.skip(k), uid),
    decreases k,
{
    if k == 0 {
        assert(locs.skip(0) =~= locs);
    } else {
        lemma_find_by_uid_skip(locs, uid, k - 1);
        let rest = locs.skip(k - 1);
        assert(rest.len() > 0 && rest[0].location_uid != uid);
        assert(rest.drop_first() =~= locs.skip(k));
    }
}

/// A prefix without the name can be skipped without changing the first
/// match.
proof fn lemma_find_by_name_skip(locs: Seq<Location>, name: Seq<char>, k: int)
    requires
        0 <= k <= locs.len(),
        forall|j: int| 0 <= j < k ==> locs[j].name@ != name,
    ensures
        find_by_name(locs, name) == find_by_name(locs.skip(k), name),
    decreases k,
{
    if k == 0 {
        assert(locs.skip(0) =~= locs);
    } else {
        lemma_find_by_name_skip(locs, name, k - 1);
        let rest = locs.skip(k - 1);
        assert(rest.len() > 0 && rest[0].name@ != name);
        assert(rest.drop_first() =~= locs.skip(k));
    }
}

/// The geographic registry: boundary polygon, bounding rectangle, and the
/// 27 location records in region-ordinal order.
#[derive(Debug)]
pub struct AlertsInUaGeoClient {
    bounding_box: BoundingBox,
    boundary: Boundary,
    locations: Vec<Location>,
}

/// Read-only access to the geographic registry.
pub trait AlertsInUaGeo {
    /// The location records, in region-ordinal order.
    spec fn locations_seq(&self) -> Seq<Location>;

    /// The boundary polygon, as an abstract value.
    spec fn boundary_spec(&self) -> Boundary;

    /// The bounding rectangle, as an abstract value.
    spec fn bounding_box_spec(&self) -> BoundingBox;

    /// Well-formed: exactly one location per region ordinal.
    open spec fn wf(&self) -> bool {
        self.locations_seq().len() == REGION_COUNT
    }

    /// The fixed geographic bounding rectangle.
    fn bounding_rect(&self) -> (r: BoundingBox)
        ensures
            r == self.bounding_box_spec(),
    ;

    /// The national outline, parsed once at load.
    fn boundary(&self) -> (r: &Boundary)
        ensures
            *r == self.boundary_spec(),
    ;

    /// All location records, in region-ordinal order.
    fn locations(&self) -> (r: &Vec<Location>)
        ensures
            r@ == self.locations_seq(),
    ;

    /// The first location with the given identifier, by linear scan over
    /// the fixed 27 entries.
    fn get_location_by_uid(&self, uid: i32) -> (r: Option<&Location>)
        ensures
            match r {
                Some(l) => find_by_uid(self.locations_seq(), uid) == Some(*l),
                None => find_by_uid(self.locations_seq(), uid) is None,
            },
    ;

    /// The first location with the given name, by linear scan over the
    /// fixed 27 entries.
    fn get_location_by_name(&self, name: &str) -> (r: Option<&Location>)
        ensures
            match r {
                Some(l) => find_by_name(self.locations_seq(), name@) == Some(*l),
                None => find_by_name(self.locations_seq(), name@) is None,
            },
    ;
}

impl AlertsInUaGeoClient {
    /// Build the registry from the boundary's WKT text, the bounding
    /// rectangle and the location records. Construction fails, fatally for
    /// the embedding shell, when the text does not parse as a polygon or
    /// the records are not exactly one per region.
    pub fn from_parts(wkt_text: &str, bounding_box: BoundingBox, locations: Vec<Location>) -> (r:
        Result<Self, GeoError>)
        ensures
            r is Ok <==> wkt_polygon_ok(wkt_text@) && locations@.len() == REGION_COUNT,
            r matches Ok(g) ==> g.locations_seq() == locations@ && g.bounding_box_spec()
                == bounding_box && g.wf(),
            r matches Err(e) ==> if wkt_polygon_ok(wkt_text@) {
                e == (GeoError::WrongLocationCount {
                    expected: REGION_COUNT,
                    actual: locations@.len() as usize,
                })
            } else {
                e == GeoError::BadGeometry
            },
    {
        let boundary = match parse_wkt_boundary(wkt_text) {
            Some(p) => p,
            None => {
                return Err(GeoError::BadGeometry);
            },
        };
        if locations.len() != REGION_COUNT {
            return Err(GeoError::WrongLocationCount {
                expected: REGION_COUNT,
                actual: locations.len(),
            });
        }
        Ok(AlertsInUaGeoClient { bounding_box, boundary, locations })
    }
}

impl AlertsInUaGeo for AlertsInUaGeoClient {
    closed spec fn locations_seq(&self) -> Seq<Location> {
        self.locations@
    }

    closed spec fn boundary_spec(&self) -> Boundary {
        self.boundary
    }

    closed spec fn bounding_box_spec(&self) -> BoundingBox {
        self.bounding_box
    }

    fn bounding_rect(&self) -> (r: BoundingBox) {
        self.bounding_box
    }

    fn boundary(&self) -> (r: &Boundary) {
        &self.boundary
    }

    fn locations(&self) -> (r: &Vec<Location>) {
        &self.locations
    }

    fn get_location_by_uid(&self, uid: i32) -> (r: Option<&Location>) {
        let n = self.locations.len();
        let mut k: usize = 0;
        while k < n
            invariant
                n == self.locations@.len(),
                k <= n,
                forall|j: int| 0 <= j < k ==> self.locations@[j].location_uid != uid,
            decreases n - k,
        {
            if self.locations[k].location_uid == uid {
                proof {
                    lemma_find_by_uid_skip(self.locations@, uid, k as int);
                }
                return Some(&self.locations[k]);
            }
            k += 1;
        }
        proof {
            lemma_find_by_uid_skip(self.locations@, uid, n as int);
        }
        None
    }

    fn get_location_by_name(&self, name: &str) -> (r: Option<&Location>) {
        let key = name.to_owned();
        let n = self.locations.len();
        let mut k: usize = 0;
        while k < n
            invariant
                n == self.locations@.len(),
                key@ == name@,
                k <= n,
                forall|j: int| 0 <= j < k ==> self.locations@[j].name@ != name@,
            decreases n - k,
        {
            if self.locations[k].name == key {
                proof {
                    lemma_find_by_name_skip(self.locations@, name@, k as int);
                }
                return Some(&self.locations[k]);
            }
            k += 1;
        }
        proof {
            lemma_find_by_name_skip(self.locations@, name@, n as int);
        }
        None
    }
}

} // verus!
