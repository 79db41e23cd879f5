//! The geometry adapter: the closed set of geometry kinds a request may
//! carry, and their normalization into the engine's canonical multi-polygon
//! form. Coordinates, boolean differences and areas live entirely in the
//! outside geometry crates; the engine handles whole geometry values and
//! reasons about them through the uninterpreted functions declared here.

use vstd::prelude::*;

use crate::types::{CoverageError, GeometryRole};

verus! {

#[verifier::external_type_specification]
#[verifier::external_body]
pub struct ExGeometry(geojson::Geometry);

/// A planar polygon: one exterior ring and zero or more holes, held in the
/// geometry library's representation. The engine never looks inside one.
#[verifier::external_body]
pub struct Polygon {
    inner: geo::Polygon,
}

/// An ordered sequence of polygons: the canonical shape every subject and
/// every candidate is brought into before any coverage computation.
#[verifier::external_body]
pub struct MultiPolygon {
    inner: geo::MultiPolygon,
}

/// The kinds of wire geometry the coverage service recognizes; everything
/// that is neither a polygon nor a multi-polygon is rejected as `Other`.
#[derive(Clone, Copy, Debug, PartialEq, Eq, Structural)]
pub enum GeometryKind {
    Polygon,
    MultiPolygon,
    Other,
}

pub uninterp spec fn geometry_kind_of(g: geojson::Geometry) -> GeometryKind;

pub uninterp spec fn polygon_value_of(g: geojson::Geometry) -> Polygon;

pub uninterp spec fn multi_polygon_value_of(g: geojson::Geometry) -> MultiPolygon;

pub uninterp spec fn singleton_of(p: Polygon) -> MultiPolygon;

pub uninterp spec fn difference_of(a: MultiPolygon, b: MultiPolygon) -> MultiPolygon;

pub uninterp spec fn area_bits_of(mp: MultiPolygon) -> u64;

pub uninterp spec fn encoding_of(mp: MultiPolygon) -> geojson::Geometry;

/// Holds when a wire geometry is in the documented encoding and within the
/// machine's reach: every coordinate position carries at least the two
/// numbers the encoding defines, and every coordinate is finite and of a
/// magnitude the boolean primitive's integer grid can hold (far above any
/// longitude or latitude). The outside conversions are partial on anything
/// else, so the unverified boundary checks this before a geometry enters.
pub uninterp spec fn well_formed_geometry(g: geojson::Geometry) -> bool;

/// Holds when every coordinate of a multi-polygon is finite and within the
/// boolean primitive's integer grid, so that subtraction cannot fail on it.
pub uninterp spec fn clippable(mp: MultiPolygon) -> bool;

/// Relies on geojson's `TryFrom<&Geometry> for geo::Polygon` and geo's
/// `MultiPolygon::new`: the conversion succeeds exactly on a polygon
/// geometry and yields the polygon that geometry encodes, a function of the
/// geometry alone, here wrapped at once as a one-member multi-polygon.
#[verifier::external_body]
fn try_lifted_polygon(g: &geojson::Geometry) -> (r: Option<MultiPolygon>)
    requires
        well_formed_geometry(*g),
    ensures
        r is Some <==> geometry_kind_of(*g) == GeometryKind::Polygon,
        r matches Some(mp) ==> mp == singleton_of(polygon_value_of(*g)) && clippable(mp),
{
    match geo::Polygon::try_from(g) {
        Ok(p) => Some(MultiPolygon { inner: geo::MultiPolygon::new(vec![p]) }),
        Err(_) => None,
    }
}

/// Relies on geojson's `TryFrom<&Geometry> for geo::MultiPolygon`: it
/// succeeds exactly on a multi-polygon geometry and yields the multi-polygon
/// that geometry encodes, a function of the geometry alone.
#[verifier::external_body]
fn try_multi_polygon(g: &geojson::Geometry) -> (r: Option<MultiPolygon>)
    requires
        well_formed_geometry(*g),
    ensures
        r is Some <==> geometry_kind_of(*g) == GeometryKind::MultiPolygon,
        r matches Some(mp) ==> mp == multi_polygon_value_of(*g) && clippable(mp),
{
    match geo::MultiPolygon::try_from(g) {
        Ok(mp) => Some(MultiPolygon { inner: mp }),
        Err(_) => None,
    }
}

/// Relies on geo's derived `Clone` for `MultiPolygon`: the clone is the same
/// multi-polygon value as the original.
#[verifier::external_body]
pub(crate) fn duplicate(mp: &MultiPolygon) -> (r: MultiPolygon)
    ensures
        r == *mp,
{
    MultiPolygon { inner: mp.inner.clone() }
}

/// Relies on geo_clipper's `Clipper::difference` at scale factor one, with
/// each operand first brought to conventional ring winding by geo's
/// `Orient` (exteriors counter-clockwise, holes clockwise), which keeps the
/// same rings and so the same region: together they compute the boolean set
/// difference of the two regions, holes honored, a function of the two
/// operands alone.
#[verifier::external_body]
pub(crate) fn subtract(a: &MultiPolygon, b: &MultiPolygon) -> (r: MultiPolygon)
    requires
        clippable(*a),
        clippable(*b),
    ensures
        r == difference_of(*a, *b),
        clippable(r),
{
    MultiPolygon {
        inner: geo_clipper::Clipper::difference(
            &geo::orient::Orient::orient(&a.inner, geo::orient::Direction::Default),
            &geo::orient::Orient::orient(&b.inner, geo::orient::Direction::Default),
            1u8.into(),
        ),
    }
}

/// Relies on geo's `GeodesicArea::geodesic_area_unsigned`: the unsigned
/// geodesic area of a multi-polygon, a function of its coordinates alone;
/// handed out as the raw bit pattern of the area value.
#[verifier::external_body]
pub(crate) fn area_bits(mp: &MultiPolygon) -> (r: u64)
    ensures
        r == area_bits_of(*mp),
{
    geo::GeodesicArea::geodesic_area_unsigned(&mp.inner).to_bits()
}

impl MultiPolygon {
    /// Relies on geojson's `From<&geo::MultiPolygon> for Geometry`: the wire
    /// encoding of this multi-polygon, a function of its coordinates alone.
    #[verifier::external_body]
    pub fn to_geometry(&self) -> (r: geojson::Geometry)
        ensures
            r == encoding_of(*self),
            clippable(*self) ==> well_formed_geometry(r),
    {
        geojson::Geometry::from(&self.inner)
    }
}

/// What normalization yields for a wire geometry: a multi-polygon passes
/// through unchanged, a bare polygon is lifted into a one-member
/// multi-polygon, and every other kind is refused.
pub open spec fn normalize_spec(g: geojson::Geometry) -> Option<MultiPolygon> {
    match geometry_kind_of(g) {
        GeometryKind::MultiPolygon => Some(multi_polygon_value_of(g)),
        GeometryKind::Polygon => Some(singleton_of(polygon_value_of(g))),
        GeometryKind::Other => None,
    }
}

/// Brings one wire geometry into canonical multi-polygon form, or rejects it
/// with an error naming the role the geometry played in the request. No
/// repair, simplification or ring validation happens here.
pub fn normalize(g: &geojson::Geometry, role: GeometryRole) -> (r: Result<
    MultiPolygon,
    CoverageError,
>)
    requires
        well_formed_geometry(*g),
    ensures
        match r {
            Ok(mp) => normalize_spec(*g) == Some(mp) && clippable(mp),
            Err(e) => normalize_spec(*g) is None && e == CoverageError::InvalidGeometryKind(role),
        },
{
    match try_multi_polygon(g) {
        Some(mp) => Ok(mp),
        None => match try_lifted_polygon(g) {
            Some(mp) => Ok(mp),
            None => Err(CoverageError::InvalidGeometryKind(role)),
        },
    }
}

} // verus!
