//! Boolean combinators over shapes.
//!
//! A combinator holds children, numbered by position. For one ray, each child
//! reports its hits; for each hit the caller also tells, child by child,
//! whether that child contains the hit's point. The rules below decide which
//! hits the combinator reports and whether it contains a point.
use vstd::prelude::*;

verus! {

/// A hit reported by the child at position `child`, with `inside[j]` telling
/// whether the child at position `j` contains the hit's point.
pub struct Candidate<H> {
    pub hit: H,
    pub child: usize,
    pub inside: Vec<bool>,
}

/// Some child other than `child` contains the point.
pub open spec fn covered_by_sibling(child: int, inside: Seq<bool>) -> bool {
    exists|j: int| 0 <= j < inside.len() && j != child && #[trigger] inside[j]
}

/// Every child other than `child` contains the point.
pub open spec fn within_every_sibling(child: int, inside: Seq<bool>) -> bool {
    forall|j: int| 0 <= j < inside.len() && j != child ==> #[trigger] inside[j]
}

/// A union keeps a hit that no other child hides.
pub open spec fn union_keeps<H>(c: Candidate<H>) -> bool {
    !covered_by_sibling(c.child as int, c.inside@)
}

/// An intersection keeps a hit that every other child contains.
pub open spec fn intersect_keeps<H>(c: Candidate<H>) -> bool {
    within_every_sibling(c.child as int, c.inside@)
}

/// The hits, in order, of the candidates that a union keeps.
pub open spec fn union_hits_spec<H>(s: Seq<Candidate<H>>) -> Seq<H> {
    s.filter_map(|c: Candidate<H>| if union_keeps(c) { Some(c.hit) } else { None })
}

/// The hits, in order, of the candidates that an intersection keeps.
pub open spec fn intersect_hits_spec<H>(s: Seq<Candidate<H>>) -> Seq<H> {
    s.filter_map(|c: Candidate<H>| if intersect_keeps(c) { Some(c.hit) } else { None })
}

/// A point is inside a union when some child contains it.
pub open spec fn any_inside(inside: Seq<bool>) -> bool {
    exists|j: int| 0 <= j < inside.len() && #[trigger] inside[j]
}

/// A point is inside an intersection when every child contains it.
pub open spec fn all_inside(inside: Seq<bool>) -> bool {
    forall|j: int| 0 <= j < inside.len() ==> #[trigger] inside[j]
}

fn sibling_covers(child: usize, inside: &Vec<bool>) -> (r: bool)
    ensures
        r == covered_by_sibling(child as int, inside@),
{
    let mut j: usize = 0;
    while j < inside.len()
        invariant
            j <= inside@.len(),
            forall|k: int| 0 <= k < j && k != child ==> !inside@[k],
        decreases inside@.len() - j,
    {
        if j != child && inside[j] {
            return true;
        }
        j = j + 1;
    }
    false
}

fn siblings_contain(child: usize, inside: &Vec<bool>) -> (r: bool)
    ensures
        r == within_every_sibling(child as int, inside@),
{
    let mut j: usize = 0;
    while j < inside.len()
        invariant
            j <= inside@.len(),
            forall|k: int| 0 <= k < j && k != child ==> inside@[k],
        decreases inside@.len() - j,
    {
        if j != child && !inside[j] {
            return false;
        }
        j = j + 1;
    }
    true
}

/// The hits that a union reports: those of each child that no other child
/// contains, in the order given. Surfaces buried inside another child are
/// dropped. A union of one child reports all of that child's hits.
pub fn union_hits<H: Copy>(cands: &Vec<Candidate<H>>) -> (r: Vec<H>)
    ensures
        r@ == union_hits_spec(cands@),
{
    let mut r: Vec<H> = Vec::new();
    let mut k: usize = 0;
    while k < cands.len()
        invariant
            k <= cands@.len(),
            r@ == union_hits_spec(cands@.subrange(0, k as int)),
        decreases cands@.len() - k,
    {
        proof {
            assert(cands@.subrange(0, k + 1).drop_last() =~= cands@.subrange(0, k as int));
        }
        if !sibling_covers(cands[k].child, &cands[k].inside) {
            r.push(cands[k].hit);
            proof {
                assert(r@ =~= union_hits_spec(cands@.subrange(0, k as int)) + seq![cands@[k as int].hit]);
            }
        }
        k = k + 1;
    }
    proof {
        assert(cands@.subrange(0, cands@.len() as int) =~= cands@);
    }
    r
}

/// The hits that an intersection reports: those of each child that every
/// other child contains, in the order given. An intersection of one child
/// reports all of that child's hits.
pub fn intersect_hits<H: Copy>(cands: &Vec<Candidate<H>>) -> (r: Vec<H>)
    ensures
        r@ == intersect_hits_spec(cands@),
{
    let mut r: Vec<H> = Vec::new();
    let mut k: usize = 0;
    while k < cands.len()
        invariant
            k <= cands@.len(),
            r@ == intersect_hits_spec(cands@.subrange(0, k as int)),
        decreases cands@.len() - k,
    {
        proof {
            assert(cands@.subrange(0, k + 1).drop_last() =~= cands@.subrange(0, k as int));
        }
        if siblings_contain(cands[k].child, &cands[k].inside) {
            r.push(cands[k].hit);
            proof {
                assert(r@ =~= intersect_hits_spec(cands@.subrange(0, k as int)) + seq![cands@[k as int].hit]);
            }
        }
        k = k + 1;
    }
    proof {
        assert(cands@.subrange(0, cands@.len() as int) =~= cands@);
    }
    r
}

/// A union contains a point when at least one child does.
pub fn union_is_inside(inside: &Vec<bool>) -> (r: bool)
    ensures
        r == any_inside(inside@),
{
    let mut j: usize = 0;
    while j < inside.len()
        invariant
            j <= inside@.len(),
            forall|k: int| 0 <= k < j ==> !inside@[k],
        decreases inside@.len() - j,
    {
        if inside[j] {
            return true;
        }
        j = j + 1;
    }
    false
}

/// An intersection contains a point when every child does; one of no
/// children contains every point.
pub fn intersect_is_inside(inside: &Vec<bool>) -> (r: bool)
    ensures
        r == all_inside(inside@),
{
    let mut j: usize = 0;
    while j < inside.len()
        invariant
            j <= inside@.len(),
            forall|k: int| 0 <= k < j ==> inside@[k],
        decreases inside@.len() - j,
    {
        if !inside[j] {
            return false;
        }
        j = j + 1;
    }
    true
}

/// A complement contains exactly the points that its child does not.
pub fn complement_is_inside(child_inside: bool) -> (r: bool)
    ensures
        r == !child_inside,
{
    !child_inside
}

/// In a union of two children, a hit of either child is reported exactly
/// when the other child does not contain its point, so crossings buried in
/// the overlap are never reported; and the union contains a point exactly
/// when either child does.
pub proof fn lemma_union_of_two<H>(c: Candidate<H>)
    requires
        c.inside@.len() == 2,
        c.child < 2,
    ensures
        union_keeps(c) == !c.inside@[1 - c.child],
        any_inside(c.inside@) == (c.inside@[0] || c.inside@[1]),
{
    if c.inside@[1 - c.child] {
        assert(covered_by_sibling(c.child as int, c.inside@));
    }
    if c.inside@[0] {
        assert(any_inside(c.inside@));
    }
    if c.inside@[1] {
        assert(any_inside(c.inside@));
    }
}

/// A combinator of one child reports every hit of that child, in order:
/// with no sibling, nothing hides a hit and nothing is missing around it.
pub proof fn lemma_single_child_reports_all<H>(s: Seq<Candidate<H>>)
    requires
        forall|k: int| 0 <= k < s.len() ==> (#[trigger] s[k]).child == 0 && s[k].inside@.len() == 1,
    ensures
        union_hits_spec(s) == s.map_values(|c: Candidate<H>| c.hit),
        intersect_hits_spec(s) == s.map_values(|c: Candidate<H>| c.hit),
    decreases s.len(),
{
    if s.len() > 0 {
        let rest = s.drop_last();
        assert forall|k: int| 0 <= k < rest.len() implies (#[trigger] rest[k]).child == 0
            && rest[k].inside@.len() == 1 by {
            assert(rest[k] == s[k]);
        }
        lemma_single_child_reports_all(rest);
        let c = s.last();
        assert(union_keeps(c));
        assert(intersect_keeps(c));
        assert(s.map_values(|c: Candidate<H>| c.hit) =~= rest.map_values(|c: Candidate<H>| c.hit)
            + seq![c.hit]);
    } else {
        assert(s.map_values(|c: Candidate<H>| c.hit) =~= Seq::<H>::empty());
    }
}

} // verus!
