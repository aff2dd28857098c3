//! A typed query and schema builder for a full-text, vector, geo and numeric
//! search engine: filter expressions composed with `and` / `or`, typed field
//! descriptors, and the ordered argument lists of the index-creation and
//! search commands.
use vstd::prelude::*;

pub mod args;
pub mod builder;
pub mod create;
pub mod document;
pub mod error;
pub mod expr;
pub mod field;
pub mod query;

pub use crate::args::{i128_text, u128_text, Arg};
pub use crate::builder::{
    ConfigError, GeoOption, NumberOption, TagOption, TextOption, VectorDataType, VectorOption,
};
pub use crate::create::{DataType, FTCreate, FieldOption, IndexOption, Prefix, SchemaField};
pub use crate::document::Document;
pub use crate::error::Error;
pub use crate::expr::{Expr, SortOrder};
pub use crate::field::{
    DistanceMetric, Field, GeoField, NumberField, PhoneticMatcher, RangeBound, TagField, TextField,
    VectorAlgorithm, VectorField, VectorType,
};
pub use crate::query::{FTSearch, FTSearchOption, FTSearchParam, FTSearchReturn, SortBy};

verus! {

} // verus!
