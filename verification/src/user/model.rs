use crate::query::{parts_view, sql, QueryPart, QueryPartView};
use vstd::prelude::*;

verus! {

/// A user row.
#[derive(Debug)]
pub struct User {
    pub id: i32,
    pub username: String,
}

/// The count of users named `username`, leaving out the user `exclude_id`
/// where one is given.
pub open spec fn exists_query_spec(username: Seq<char>, exclude_id: Option<i32>) -> Seq<
    QueryPartView,
> {
    seq![
        QueryPartView::Sql("SELECT COUNT(*) FROM users WHERE username = "@),
        QueryPartView::BindText(username),
    ] + match exclude_id {
        Some(id) => seq![QueryPartView::Sql(" AND id <>"@), QueryPartView::BindInt(id)],
        None => seq![],
    }
}

/// The query that counts the users named `username`, other than `exclude_id`.
pub fn exists_query(username: &str, exclude_id: Option<i32>) -> (parts: Vec<QueryPart>)
    ensures
        parts_view(parts@) == exists_query_spec(username@, exclude_id),
{
    let mut parts: Vec<QueryPart> = Vec::new();
    parts.push(sql("SELECT COUNT(*) FROM users WHERE username = "));
    parts.push(QueryPart::BindText(String::from_str(username)));
    if let Some(id) = exclude_id {
        parts.push(sql(" AND id <>"));
        parts.push(QueryPart::BindInt(id));
    }
    assert(parts_view(parts@) =~= exists_query_spec(username@, exclude_id));
    parts
}

/// The name check counts exactly the users whose name equals `username`:
/// it selects `COUNT(*)` over the users whose `username` is `=` the name bound
/// as text, and only where an id is given leaves out the user with that id.
pub proof fn name_check_counts_that_name(username: Seq<char>, exclude_id: Option<i32>)
    ensures
        exists_query_spec(username, exclude_id)[0] == QueryPartView::Sql(
            "SELECT COUNT(*) FROM users WHERE username = "@,
        ),
        exists_query_spec(username, exclude_id)[1] == QueryPartView::BindText(username),
        exclude_id is None ==> exists_query_spec(username, exclude_id).len() == 2,
        exclude_id matches Some(id) ==> exists_query_spec(username, exclude_id).len() == 4
            && exists_query_spec(username, exclude_id)[2] == QueryPartView::Sql(" AND id <>"@)
            && exists_query_spec(username, exclude_id)[3] == QueryPartView::BindInt(id),
{
}

} // verus!
