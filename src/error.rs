use vstd::prelude::*;

verus! {

/// The construction errors of a query expression.
#[derive(Debug, Clone, Copy, PartialEq, Eq, Structural)]
pub enum Error {
    /// Two vector (KNN) clauses were merged into one expression.
    DuplicatedVectorQuery,
    /// Two parameter bindings share a name.
    DuplicatedParam,
    /// The materialized query has neither a filter nor a KNN clause.
    EmptyQueryBody,
}

/// The message that describes an error.
pub open spec fn error_message(e: Error) -> Seq<char> {
    match e {
        Error::DuplicatedVectorQuery => "duplicated vector query"@,
        Error::DuplicatedParam => "duplicated param"@,
        Error::EmptyQueryBody => "empty query body"@,
    }
}

impl Error {
    /// The message that describes the error.
    pub fn message(&self) -> (r: &'static str)
        ensures
            r@ == error_message(*self),
    {
        match self {
            Error::DuplicatedVectorQuery => "duplicated vector query",
            Error::DuplicatedParam => "duplicated param",
            Error::EmptyQueryBody => "empty query body",
        }
    }
}

} // verus!
