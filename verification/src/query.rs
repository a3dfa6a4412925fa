use vstd::prelude::*;

verus! {

/// One piece of a query assembled at run time: SQL text taken as it is, or a
/// value bound to the next placeholder.
#[derive(Debug)]
pub enum QueryPart {
    Sql(String),
    BindText(String),
    BindInt(i32),
}

/// A [`QueryPart`] with its text as plain characters.
pub enum QueryPartView {
    Sql(Seq<char>),
    BindText(Seq<char>),
    BindInt(i32),
}

impl View for QueryPart {
    type V = QueryPartView;

    open spec fn view(&self) -> QueryPartView {
        match self {
            QueryPart::Sql(s) => QueryPartView::Sql(s@),
            QueryPart::BindText(t) => QueryPartView::BindText(t@),
            QueryPart::BindInt(i) => QueryPartView::BindInt(*i),
        }
    }
}

/// The parts of a query, each as plain values.
pub open spec fn parts_view(parts: Seq<QueryPart>) -> Seq<QueryPartView> {
    parts.map_values(|p: QueryPart| p@)
}

/// A piece of SQL text.
pub fn sql(text: &str) -> (p: QueryPart)
    ensures
        p@ == QueryPartView::Sql(text@),
{
    QueryPart::Sql(String::from_str(text))
}

} // verus!
