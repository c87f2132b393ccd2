//! Rules of polygons that do not depend on coordinates: which vertex lists
//! make a polygon, and the even-odd containment rule.
use vstd::prelude::*;

verus! {

/// Why a polygon cannot be built.
#[derive(Debug, PartialEq, Eq, Structural)]
pub enum PolygonError {
    /// A polygon needs at least two vertices.
    TooFewPoints,
    /// A star needs at least five points.
    TooFewStarPoints,
}

/// Fewest vertices of a polygon.
pub const MIN_POINTS: usize = 2;

/// Fewest points of a star.
pub const MIN_STAR_POINTS: u32 = 5;

/// A polygon can be built from `count` vertices when there are at least two.
pub fn check_points(count: usize) -> (r: Result<(), PolygonError>)
    ensures
        r is Ok <==> count >= 2,
        r is Err ==> r == Err::<(), PolygonError>(PolygonError::TooFewPoints),
{
    if count >= MIN_POINTS {
        Ok(())
    } else {
        Err(PolygonError::TooFewPoints)
    }
}

/// A star of `n` points has `2 * n` vertices, alternately on the outer and
/// the inner radius; it can be built when `n` is at least five.
pub fn star_vertex_count(n: u32) -> (r: Result<u64, PolygonError>)
    ensures
        r is Ok <==> n >= 5,
        r matches Ok(c) ==> c == 2 * n,
        r is Err ==> r == Err::<u64, PolygonError>(PolygonError::TooFewStarPoints),
{
    if n >= MIN_STAR_POINTS {
        Ok(2 * (n as u64))
    } else {
        Err(PolygonError::TooFewStarPoints)
    }
}

/// How many entries of `s` are true.
pub open spec fn count_true(s: Seq<bool>) -> nat
    decreases s.len(),
{
    if s.len() == 0 {
        0
    } else {
        count_true(s.drop_last()) + if s.last() { 1nat } else { 0nat }
    }
}

/// The even-odd rule: given, for each edge, whether a ray cast from a point
/// crosses it, the point is inside when the number of crossings is odd.
pub fn odd_crossings(crossings: &Vec<bool>) -> (r: bool)
    ensures
        r == (count_true(crossings@) % 2 == 1),
{
    let mut odd = false;
    let mut k: usize = 0;
    while k < crossings.len()
        invariant
            k <= crossings@.len(),
            odd == (count_true(crossings@.subrange(0, k as int)) % 2 == 1),
        decreases crossings@.len() - k,
    {
        proof {
            assert(crossings@.subrange(0, k + 1).drop_last() =~= crossings@.subrange(0, k as int));
        }
        if crossings[k] {
            odd = !odd;
        }
        k = k + 1;
    }
    proof {
        assert(crossings@.subrange(0, crossings@.len() as int) =~= crossings@);
    }
    odd
}

} // verus!
