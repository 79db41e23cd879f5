//! Plain data carried into and out of the coverage engine.

use vstd::prelude::*;

verus! {

/// Says whether a geometry stood as the subject of a coverage request or as
/// one of its candidates; a rejected geometry is reported against this role.
#[derive(Clone, Copy, Debug, PartialEq, Eq, Structural)]
pub enum GeometryRole {
    Subject,
    Candidate,
}

/// The one error the coverage engine itself can raise: the subject or a
/// candidate is a geometry kind other than a polygon or a multi-polygon.
/// A payload that cannot be parsed at all never reaches the engine; the
/// caller rejects it before any geometry value exists.
#[derive(Clone, Copy, Debug, PartialEq, Eq, Structural)]
pub enum CoverageError {
    InvalidGeometryKind(GeometryRole),
}

/// The covered percentage as the engine determines it: one hundred times the
/// quotient of the covered area by the subject area. The quotient itself is a
/// floating-point value (and deliberately left non-finite when the subject
/// area is zero), so the engine hands out the two area values as raw IEEE
/// bit patterns and leaves forming the quotient to the caller.
#[derive(Clone, Copy, Debug, PartialEq, Eq, Structural)]
pub struct AreaRatio {
    pub covered_area_bits: u64,
    pub subject_area_bits: u64,
}

/// One coverage result: the covered share of the subject's area, the region
/// of the subject no candidate covered, and the covered region itself, both
/// regions already in their wire encoding. Both geometries are always
/// populated by the engine; they are optional only so a response can omit
/// them when absent.
pub struct PartialCoverage {
    pub covered_percentage: AreaRatio,
    pub leftover: Option<geojson::Geometry>,
    pub covered_area: Option<geojson::Geometry>,
}

impl PartialCoverage {
    pub fn new(
        covered_percentage: AreaRatio,
        leftover: Option<geojson::Geometry>,
        covered_area: Option<geojson::Geometry>,
    ) -> (r: Self)
        ensures
            r.covered_percentage == covered_percentage,
            r.leftover == leftover,
            r.covered_area == covered_area,
    {
        PartialCoverage { covered_percentage, leftover, covered_area }
    }
}

/// The aggregate answer for a whole request: the coverage of the subject by
/// all candidates together, plus one independent per-candidate result for
/// each candidate, in the order the candidates were supplied.
pub struct CoverResponse {
    pub covered_percentage: AreaRatio,
    pub leftover: Option<geojson::Geometry>,
    pub covered_area: Option<geojson::Geometry>,
    pub partial_coverages: Option<Vec<PartialCoverage>>,
}

impl CoverResponse {
    pub fn new(
        covered_percentage: AreaRatio,
        leftover: Option<geojson::Geometry>,
        covered_area: Option<geojson::Geometry>,
        partial_coverages: Option<Vec<PartialCoverage>>,
    ) -> (r: Self)
        ensures
            r.covered_percentage == covered_percentage,
            r.leftover == leftover,
            r.covered_area == covered_area,
            r.partial_coverages == partial_coverages,
    {
        CoverResponse { covered_percentage, leftover, covered_area, partial_coverages }
    }
}

/// One geometry of a request, carried in its wire form together with nothing
/// the computation reads; the engine normalizes it before any other work.
pub struct GeoArea {
    pub area: geojson::Geometry,
}

/// A whole coverage request: the subject to be covered and the ordered list
/// of candidates clipped out of it.
pub struct GetCoverBody {
    pub subject: GeoArea,
    pub clippers: Vec<GeoArea>,
}

} // verus!
