//! Which render jobs of a batch are carried out.
use vstd::prelude::*;

verus! {

/// A job is rendered when it is enabled and its scene holds at least one
/// entity; the others are skipped.
pub fn should_render(enable: bool, entity_count: usize) -> (r: bool)
    ensures
        r == (enable && entity_count > 0),
{
    enable && entity_count > 0
}

} // verus!
