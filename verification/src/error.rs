use vstd::prelude::*;

verus! {

/// The error that every handler of the service answers with.
#[derive(Debug)]
pub enum Error {
    /// A refusal decided by the service itself, with the text shown to the caller.
    Message(String),
    /// A failure reported by the database driver, with its description.
    Database(String),
}

/// What an [`Error`] says, as plain text.
pub enum ErrorView {
    Message(Seq<char>),
    Database(Seq<char>),
}

impl View for Error {
    type V = ErrorView;

    open spec fn view(&self) -> ErrorView {
        match self {
            Error::Message(m) => ErrorView::Message(m@),
            Error::Database(d) => ErrorView::Database(d@),
        }
    }
}

impl Error {
    /// A refusal with the given text.
    pub fn new(msg: &str) -> (e: Error)
        ensures
            e@ == ErrorView::Message(msg@),
    {
        Error::Message(String::from_str(msg))
    }

    /// A database failure with the given description.
    pub fn database(detail: String) -> (e: Error)
        ensures
            e@ == ErrorView::Database(detail@),
    {
        Error::Database(detail)
    }

    /// The text of the error.
    pub fn message(&self) -> (s: String)
        ensures
            s@ == match self@ {
                ErrorView::Message(m) => m,
                ErrorView::Database(d) => d,
            },
    {
        match self {
            Error::Message(m) => m.clone(),
            Error::Database(d) => d.clone(),
        }
    }
}

} // verus!
