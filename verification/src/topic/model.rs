use crate::query::{parts_view, sql, QueryPart, QueryPartView};
use vstd::prelude::*;

verus! {

/// The JSON document stored with a topic.
#[derive(Debug)]
pub struct TopicMeta {
    pub author: String,
    pub views: i64,
}

/// A topic row.
#[derive(Debug)]
pub struct Topic {
    pub id: i32,
    pub title: String,
    pub meta: TopicMeta,
}

impl Topic {
    /// A topic not stored yet: id 0, the given title and author, no views.
    pub fn new(title: String, author: String) -> (t: Topic)
        ensures
            t.id == 0,
            t.title == title,
            t.meta.author == author,
            t.meta.views == 0,
    {
        Topic { id: 0, title, meta: TopicMeta { author, views: 0 } }
    }
}

impl TopicMeta {
    /// The document after one more view: the counter one higher, the author kept.
    pub fn viewed_once(self) -> (m: TopicMeta)
        requires
            self.views < i64::MAX,
        ensures
            m.views == self.views + 1,
            m.author == self.author,
    {
        TopicMeta { views: self.views + 1, ..self }
    }
}

/// Optional parts of a topic title and of an author name to search for.
pub struct TopicFilter {
    pub title: Option<String>,
    pub author: Option<String>,
}

/// The `ILIKE` pattern that matches any text containing `t`.
pub open spec fn contains_pattern(t: Seq<char>) -> Seq<char> {
    "%"@ + t + "%"@
}

/// The SQL that every topic search starts with.
pub open spec fn list_base_sql() -> Seq<char> {
    "SELECT id, title, \"meta\" FROM topics WHERE 1=1"@
}

/// The condition on the title, bound to its pattern, where a title is given.
pub open spec fn title_clause(title: Option<String>) -> Seq<QueryPartView> {
    match title {
        Some(t) => seq![
            QueryPartView::Sql(" AND title ILIKE "@),
            QueryPartView::BindText(contains_pattern(t@)),
        ],
        None => seq![],
    }
}

/// The condition on the author in the JSON document, bound to its pattern,
/// where an author is given.
pub open spec fn author_clause(author: Option<String>) -> Seq<QueryPartView> {
    match author {
        Some(a) => seq![
            QueryPartView::Sql(" AND \"meta\" ->> 'author' ILIKE "@),
            QueryPartView::BindText(contains_pattern(a@)),
        ],
        None => seq![],
    }
}

/// `t` wrapped in `%` on both sides, for a substring match with `ILIKE`.
pub fn like_pattern(t: &str) -> (p: String)
    ensures
        p@ == contains_pattern(t@),
{
    let mut p = String::from_str("%");
    p.append(t);
    p.append("%");
    p
}

/// The search for topics: the base query, then the title condition, then the
/// author condition, each only where the filter gives it.
pub fn list_query(f: &TopicFilter) -> (parts: Vec<QueryPart>)
    ensures
        parts_view(parts@) == seq![QueryPartView::Sql(list_base_sql())] + title_clause(f.title)
            + author_clause(f.author),
{
    let mut parts: Vec<QueryPart> = Vec::new();
    parts.push(sql("SELECT id, title, \"meta\" FROM topics WHERE 1=1"));
    if let Some(t) = &f.title {
        parts.push(sql(" AND title ILIKE "));
        parts.push(QueryPart::BindText(like_pattern(t.as_str())));
    }
    if let Some(a) = &f.author {
        parts.push(sql(" AND \"meta\" ->> 'author' ILIKE "));
        parts.push(QueryPart::BindText(like_pattern(a.as_str())));
    }
    assert(parts_view(parts@) =~= seq![QueryPartView::Sql(list_base_sql())] + title_clause(
        f.title,
    ) + author_clause(f.author));
    parts
}

/// The search pattern is the whole search text between two `%`: two
/// characters longer than the text, `%` first and last, and the text itself,
/// unchanged and in one piece, in between.
pub proof fn pattern_wraps_whole_text(t: Seq<char>)
    ensures
        contains_pattern(t).len() == t.len() + 2,
        contains_pattern(t)[0] == '%',
        contains_pattern(t)[t.len() as int + 1] == '%',
        contains_pattern(t).subrange(1, t.len() as int + 1) == t,
{
    reveal_strlit("%");
    assert(contains_pattern(t).subrange(1, t.len() as int + 1) =~= t);
}

/// A topic search is the base query that selects every topic, followed by one
/// condition per given filter, title before author: the title compared with
/// `ILIKE` to its pattern, the author in the JSON document compared with
/// `ILIKE` to its pattern. Nothing else is bound.
pub proof fn search_has_one_condition_per_filter(title: Option<String>, author: Option<String>)
    ensures
        ({
            let parts = seq![QueryPartView::Sql(list_base_sql())] + title_clause(title)
                + author_clause(author);
            let t: int = if title is Some {
                2
            } else {
                0
            };
            &&& parts[0] == QueryPartView::Sql("SELECT id, title, \"meta\" FROM topics WHERE 1=1"@)
            &&& parts.len() == 1 + t + if author is Some {
                2int
            } else {
                0int
            }
            &&& title matches Some(s) ==> parts[1] == QueryPartView::Sql(" AND title ILIKE "@)
                && parts[2] == QueryPartView::BindText(contains_pattern(s@))
            &&& author matches Some(a) ==> parts[1 + t] == QueryPartView::Sql(
                " AND \"meta\" ->> 'author' ILIKE "@,
            ) && parts[2 + t] == QueryPartView::BindText(contains_pattern(a@))
        }),
{
}

} // verus!
