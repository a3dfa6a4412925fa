use vstd::prelude::*;

verus! {

/// A category row.
#[derive(Debug)]
pub struct Category {
    pub id: i32,
    pub name: String,
}

} // verus!
