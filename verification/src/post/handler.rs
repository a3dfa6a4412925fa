use super::model::Post;
use crate::error::{Error, ErrorView};
use vstd::prelude::*;

verus! {

/// The body of a request that creates a post.
pub struct CreateForm {
    pub content: String,
    pub images: Vec<String>,
}

/// The answer given when the post asked for does not exist.
pub open spec fn missing_post() -> ErrorView {
    ErrorView::Message("不存在的记录"@)
}

/// The answer to a lookup of one post: the post where the database found it,
/// else the error "不存在的记录".
pub fn require_found(found: Option<Post>) -> (r: Result<Post, Error>)
    ensures
        match found {
            Some(p) => r == Ok::<Post, Error>(p),
            None => r matches Err(e) && e@ == missing_post(),
        },
{
    match found {
        Some(p) => Ok(p),
        None => Err(Error::new("不存在的记录")),
    }
}

} // verus!
