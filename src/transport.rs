//! The branching rule of light transport at a hit.
use vstd::prelude::*;

verus! {

/// Whether light is gathered further from a hit, and at which depth: only
/// while depth remains and the surface reflects or refracts, one level
/// deeper than the hit itself.
pub open spec fn bounce_spec(depth: u32, reflective: bool, refractive: bool) -> Option<u32> {
    if depth > 0 && (reflective || refractive) {
        Some((depth - 1) as u32)
    } else {
        None
    }
}

/// The depth at which the secondary rays of a hit are traced, or `None` when
/// the hit contributes its emitted light alone. `reflective` tells whether the
/// surface's reflectivity is positive, `refractive` whether its refractive
/// index is.
pub fn bounce(depth: u32, reflective: bool, refractive: bool) -> (r: Option<u32>)
    ensures
        r == bounce_spec(depth, reflective, refractive),
{
    if depth > 0 && (reflective || refractive) {
        Some(depth - 1)
    } else {
        None
    }
}

/// Light that reaches a boundary from inside a medium has crossed it, and is
/// attenuated by its absorption; light that enters a surface is not.
pub fn attenuates(entering: bool) -> (r: bool)
    ensures
        r == !entering,
{
    !entering
}

/// At depth zero no secondary ray is traced, whatever the surface: a hit
/// gives its emitted light alone.
pub proof fn lemma_depth_zero_emits_only(reflective: bool, refractive: bool)
    ensures
        bounce_spec(0, reflective, refractive) is None,
{
}

} // verus!
