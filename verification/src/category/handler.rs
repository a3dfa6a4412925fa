use vstd::prelude::*;

verus! {

/// The body of a request that creates a category.
pub struct CreateForm {
    pub name: String,
}

/// The body of a request that renames a category.
pub struct EditForm {
    pub id: i32,
    pub name: String,
}

} // verus!
