use vstd::prelude::*;

verus! {

/// Marks a block that has settled on the field.
pub struct StaticBlock;

} // verus!
