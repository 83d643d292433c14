use vstd::prelude::*;

verus! {

/// A handle naming one entity of a world; two handles are the same entity
/// exactly when their ids are equal.
#[derive(Debug, Clone, Copy, PartialEq, Eq, Structural, Hash)]
pub struct Entity {
    pub id: usize,
}

} // verus!
