//! The coverage engine: subtracts candidates from a subject to find the
//! leftover region, derives the covered region as the subject minus its own
//! leftover, and recomputes the same coverage once per candidate for the
//! per-candidate breakdown.

use vstd::prelude::*;

use crate::geometry::{
    area_bits, area_bits_of, clippable, difference_of, duplicate, encoding_of, normalize,
    normalize_spec, subtract, well_formed_geometry, MultiPolygon,
};
use crate::types::{
    AreaRatio, CoverResponse, CoverageError, GeoArea, GeometryRole, GetCoverBody, PartialCoverage,
};

verus! {

/// The region of the subject that remains after each clipper, in input
/// order, has been subtracted from what the earlier clippers left.
pub open spec fn leftover_of(subject: MultiPolygon, clippers: Seq<MultiPolygon>) -> MultiPolygon
    decreases clippers.len(),
{
    if clippers.len() == 0 {
        subject
    } else {
        leftover_of(difference_of(subject, clippers[0]), clippers.skip(1))
    }
}

/// The covered region: the subject minus its own leftover, so that the same
/// boolean-difference primitive serves both computations.
pub open spec fn covered_of(subject: MultiPolygon, clippers: Seq<MultiPolygon>) -> MultiPolygon {
    difference_of(subject, leftover_of(subject, clippers))
}

/// Law: subtracting no clippers changes nothing — the leftover of a subject
/// under an empty clipper list is that subject, exactly.
pub proof fn lemma_leftover_identity(subject: MultiPolygon)
    ensures
        leftover_of(subject, Seq::<MultiPolygon>::empty()) == subject,
{
}

/// Law: appending one more clipper to the list subtracts exactly one more
/// boolean difference from the leftover the earlier clippers produced. The
/// leftover can therefore only lose what that difference removes; that the
/// removal never enlarges its area is the difference primitive's own ground.
pub proof fn lemma_leftover_append(
    subject: MultiPolygon,
    clippers: Seq<MultiPolygon>,
    clip: MultiPolygon,
)
    ensures
        leftover_of(subject, clippers.push(clip)) == difference_of(
            leftover_of(subject, clippers),
            clip,
        ),
    decreases clippers.len(),
{
    if clippers.len() == 0 {
        assert(clippers.push(clip)[0] == clip);
        assert(clippers.push(clip).skip(1) =~= Seq::<MultiPolygon>::empty());
        assert(leftover_of(difference_of(subject, clip), Seq::<MultiPolygon>::empty())
            == difference_of(subject, clip));
    } else {
        assert(clippers.push(clip)[0] == clippers[0]);
        assert(clippers.push(clip).skip(1) =~= clippers.skip(1).push(clip));
        lemma_leftover_append(difference_of(subject, clippers[0]), clippers.skip(1), clip);
    }
}

/// A single clipper leaves exactly one boolean difference behind.
proof fn lemma_leftover_single(subject: MultiPolygon, clip: MultiPolygon)
    ensures
        leftover_of(subject, seq![clip]) == difference_of(subject, clip),
{
    assert(seq![clip].skip(1) =~= Seq::<MultiPolygon>::empty());
    assert(leftover_of(difference_of(subject, clip), Seq::<MultiPolygon>::empty())
        == difference_of(subject, clip));
}

/// Subtracts each clipper in turn from an accumulating remainder that starts
/// at the subject. An empty clipper list is the identity, not an error.
pub fn calculate_leftover(subject: &MultiPolygon, clippers: &Vec<MultiPolygon>) -> (r:
    MultiPolygon)
    requires
        clippable(*subject),
        forall|i: int| 0 <= i < clippers@.len() ==> clippable(clippers@[i]),
    ensures
        r == leftover_of(*subject, clippers@),
        clippable(r),
{
    let mut remaining = duplicate(subject);
    let mut i: usize = 0;
    proof {
        assert(clippers@.skip(0) =~= clippers@);
    }
    while i < clippers.len()
        invariant
            i <= clippers@.len(),
            clippable(remaining),
            forall|j: int| 0 <= j < clippers@.len() ==> clippable(clippers@[j]),
            leftover_of(*subject, clippers@) == leftover_of(remaining, clippers@.skip(i as int)),
        decreases clippers@.len() - i,
    {
        proof {
            assert(clippers@.skip(i as int).skip(1) =~= clippers@.skip(i as int + 1));
        }
        remaining = subtract(&remaining, &clippers[i]);
        i = i + 1;
    }
    proof {
        assert(clippers@.skip(clippers@.len() as int) =~= Seq::<MultiPolygon>::empty());
    }
    remaining
}

/// The full coverage answer over one subject and one clipper list: the two
/// areas whose quotient is the covered percentage, and the leftover and
/// covered regions in their wire encoding.
pub open spec fn partial_coverage_spec(subject: MultiPolygon, clippers: Seq<MultiPolygon>) -> PartialCoverage {
    PartialCoverage {
        covered_percentage: AreaRatio {
            covered_area_bits: area_bits_of(covered_of(subject, clippers)),
            subject_area_bits: area_bits_of(subject),
        },
        leftover: Some(encoding_of(leftover_of(subject, clippers))),
        covered_area: Some(encoding_of(covered_of(subject, clippers))),
    }
}

/// Computes the coverage of the subject by the given clippers taken
/// together: the leftover after subtracting them all, the covered region as
/// subject minus leftover, and the two areas behind the covered percentage.
pub fn get_partial_coverage(subject: MultiPolygon, clippers: Vec<MultiPolygon>) -> (r:
    PartialCoverage)
    requires
        clippable(subject),
        forall|i: int| 0 <= i < clippers@.len() ==> clippable(clippers@[i]),
    ensures
        r == partial_coverage_spec(subject, clippers@),
{
    let leftover = calculate_leftover(&subject, &clippers);
    let leftover_geojson = leftover.to_geometry();
    let mut leftover_only: Vec<MultiPolygon> = Vec::new();
    leftover_only.push(duplicate(&leftover));
    let intersection = calculate_leftover(&subject, &leftover_only);
    let intersection_geojson = intersection.to_geometry();
    proof {
        assert(leftover_only@ =~= seq![leftover_of(subject, clippers@)]);
        lemma_leftover_single(subject, leftover_of(subject, clippers@));
    }
    let ratio = AreaRatio {
        covered_area_bits: area_bits(&intersection),
        subject_area_bits: area_bits(&subject),
    };
    PartialCoverage::new(ratio, Some(leftover_geojson), Some(intersection_geojson))
}

/// What a full response states about a subject and its clippers: aggregate
/// percentage, leftover and covered region over all clippers together, and
/// one independent result per clipper, index-aligned with the input order.
pub open spec fn cover_response_matches(
    r: CoverResponse,
    subject: MultiPolygon,
    clippers: Seq<MultiPolygon>,
) -> bool {
    &&& r.covered_percentage == partial_coverage_spec(subject, clippers).covered_percentage
    &&& r.leftover == partial_coverage_spec(subject, clippers).leftover
    &&& r.covered_area == partial_coverage_spec(subject, clippers).covered_area
    &&& match r.partial_coverages {
        Some(ps) => ps@.len() == clippers.len() && (forall|i: int|
            0 <= i < clippers.len() ==> ps@[i] == partial_coverage_spec(
                subject,
                seq![clippers[i]],
            )),
        None => false,
    }
}

/// Clones every multi-polygon of a list, preserving values and order.
fn duplicate_all(v: &Vec<MultiPolygon>) -> (r: Vec<MultiPolygon>)
    ensures
        r@ == v@,
{
    let mut out: Vec<MultiPolygon> = Vec::new();
    let mut i: usize = 0;
    while i < v.len()
        invariant
            i <= v@.len(),
            out@.len() == i,
            forall|j: int| 0 <= j < i ==> out@[j] == v@[j],
        decreases v@.len() - i,
    {
        out.push(duplicate(&v[i]));
        i = i + 1;
    }
    proof {
        assert(out@ =~= v@);
    }
    out
}

/// Computes the aggregate coverage over the full clipper list, then — wholly
/// independently — the coverage the subject would have under each single
/// clipper alone, in input order. Overlapping clippers therefore each report
/// their own full contribution.
pub fn get_coverage(subject: MultiPolygon, clippers: Vec<MultiPolygon>) -> (r: CoverResponse)
    requires
        clippable(subject),
        forall|i: int| 0 <= i < clippers@.len() ==> clippable(clippers@[i]),
    ensures
        cover_response_matches(r, subject, clippers@),
{
    let full_coverage = get_partial_coverage(duplicate(&subject), duplicate_all(&clippers));
    let mut partial_coverages: Vec<PartialCoverage> = Vec::new();
    let mut i: usize = 0;
    while i < clippers.len()
        invariant
            i <= clippers@.len(),
            partial_coverages@.len() == i,
            forall|j: int| 0 <= j < i ==> partial_coverages@[j] == partial_coverage_spec(
                subject,
                seq![clippers@[j]],
            ),
            clippable(subject),
            forall|j: int| 0 <= j < clippers@.len() ==> clippable(clippers@[j]),
            full_coverage == partial_coverage_spec(subject, clippers@),
        decreases clippers@.len() - i,
    {
        let mut one: Vec<MultiPolygon> = Vec::new();
        one.push(duplicate(&clippers[i]));
        proof {
            assert(one@ =~= seq![clippers@[i as int]]);
        }
        let pc = get_partial_coverage(duplicate(&subject), one);
        partial_coverages.push(pc);
        i = i + 1;
    }
    CoverResponse::new(
        full_coverage.covered_percentage,
        full_coverage.leftover,
        full_coverage.covered_area,
        Some(partial_coverages),
    )
}

/// Holds when every clipper of a request is a polygon or a multi-polygon.
pub open spec fn clippers_all_valid(clippers: Seq<GeoArea>) -> bool {
    forall|i: int| 0 <= i < clippers.len() ==> normalize_spec(clippers[i].area) is Some
}

/// The clippers of a request after normalization, in input order.
pub open spec fn normalized_clippers(clippers: Seq<GeoArea>) -> Seq<MultiPolygon> {
    clippers.map(|i: int, a: GeoArea| normalize_spec(a.area).unwrap())
}

/// Answers one whole request. Every geometry is normalized before any
/// coverage work: a rejected subject or candidate aborts the request with an
/// error naming its role, and no partial answer is produced.
pub fn compute_cover_response(body: GetCoverBody) -> (r: Result<CoverResponse, CoverageError>)
    requires
        well_formed_geometry(body.subject.area),
        forall|i: int| 0 <= i < body.clippers@.len() ==> well_formed_geometry(
            body.clippers@[i].area,
        ),
    ensures
        match r {
            Ok(resp) => {
                &&& normalize_spec(body.subject.area) is Some
                &&& clippers_all_valid(body.clippers@)
                &&& cover_response_matches(
                    resp,
                    normalize_spec(body.subject.area).unwrap(),
                    normalized_clippers(body.clippers@),
                )
            },
            Err(e) => {
                ||| (normalize_spec(body.subject.area) is None && e
                    == CoverageError::InvalidGeometryKind(GeometryRole::Subject))
                ||| (normalize_spec(body.subject.area) is Some && !clippers_all_valid(
                    body.clippers@,
                ) && e == CoverageError::InvalidGeometryKind(GeometryRole::Candidate))
            },
        },
{
    let subject = match normalize(&body.subject.area, GeometryRole::Subject) {
        Ok(mp) => mp,
        Err(e) => {
            return Err(e);
        },
    };
    let mut clippers: Vec<MultiPolygon> = Vec::new();
    let mut i: usize = 0;
    while i < body.clippers.len()
        invariant
            i <= body.clippers@.len(),
            clippers@.len() == i,
            forall|j: int| 0 <= j < i ==> normalize_spec(body.clippers@[j].area) is Some,
            forall|j: int| 0 <= j < i ==> clippers@[j] == normalize_spec(
                body.clippers@[j].area,
            ).unwrap(),
            forall|j: int| 0 <= j < i ==> clippable(clippers@[j]),
            forall|j: int| 0 <= j < body.clippers@.len() ==> well_formed_geometry(
                body.clippers@[j].area,
            ),
            normalize_spec(body.subject.area) == Some(subject),
            clippable(subject),
        decreases body.clippers@.len() - i,
    {
        match normalize(&body.clippers[i].area, GeometryRole::Candidate) {
            Ok(mp) => clippers.push(mp),
            Err(e) => {
                return Err(e);
            },
        }
        i = i + 1;
    }
    proof {
        assert(clippers@ =~= normalized_clippers(body.clippers@));
    }
    Ok(get_coverage(subject, clippers))
}

} // verus!

