use vstd::prelude::*;

verus! {

/// A post row.
#[derive(Debug)]
pub struct Post {
    pub id: i32,
    pub content: String,
    pub images: Vec<String>,
}

} // verus!
