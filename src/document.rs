//! The interface of a type that describes an index: its field accessors,
//! its create command, and searches against it.
use vstd::prelude::*;

use crate::create::{FTCreate, IndexOption};
use crate::error::Error;
use crate::expr::{materializes, search_of, Expr};
use crate::query::FTSearch;

verus! {

/// A document type stored in an index.
pub trait Document {
    /// The value that exposes one typed field accessor per attribute.
    type Operator;

    /// The field accessors, in declaration order.
    fn op() -> Self::Operator;

    /// Materializes `expr` into a search against `index`.
    fn search(index: &str, expr: Expr) -> (r: Result<FTSearch, Error>)
        ensures
            expr@.error is Some ==> r == Err::<FTSearch, Error>(expr@.error->0),
            expr@.error is None && expr@.knn is None && expr@.filter.len() == 0 ==> r == Err::<
                FTSearch,
                Error,
            >(Error::EmptyQueryBody),
            r is Ok <==> materializes(expr@),
            r is Ok ==> search_of(r->Ok_0, index@, expr@),
    {
        expr.ft_search(index)
    }

    /// The create command of an index named `index` over this type's fields.
    fn create_index(index: &str, option: IndexOption) -> FTCreate;
}

} // verus!
