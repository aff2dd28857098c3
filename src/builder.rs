//! Per-kind field configuration, checked when the field is built.
use vstd::prelude::*;

use crate::create::opt_view;
use crate::field::{
    DistanceMetric, GeoField, NumberField, PhoneticMatcher, TagField, TextField, VectorAlgorithm,
    VectorField, VectorType,
};

verus! {

/// Why a field configuration cannot be built.
#[derive(Debug, Clone, Copy, PartialEq, Eq, Structural)]
pub enum ConfigError {
    /// A vector field names no algorithm (flat or hnsw).
    MissingAlgorithm,
    /// A vector field names no element type (f32 or f64).
    MissingDataType,
    /// A vector field names no distance metric.
    MissingDistanceMetric,
    /// A vector field names no dimension.
    MissingDim,
}

/// The element type requested for a vector field.
#[derive(Debug, Clone, Copy, PartialEq, Eq, Structural)]
pub enum VectorDataType {
    F32,
    F64,
}

/// The vector element type that a requested data type stands for.
pub open spec fn vector_type_of(d: VectorDataType) -> VectorType {
    match d {
        VectorDataType::F32 => VectorType::Float32,
        VectorDataType::F64 => VectorType::Float64,
    }
}

fn clone_opt(o: &Option<String>) -> (r: Option<String>)
    ensures
        opt_view(r) == opt_view(*o),
{
    match o {
        Some(s) => Some(s.clone()),
        None => None,
    }
}

/// The configuration of a text field.
#[derive(Debug)]
pub struct TextOption {
    /// The weight, as decimal text.
    pub weight: Option<String>,
    pub no_stem: Option<bool>,
    pub phonetic: Option<PhoneticMatcher>,
    pub sortable: Option<bool>,
    pub no_index: Option<bool>,
    pub with_suffix_trie: Option<bool>,
}

impl Default for TextOption {
    fn default() -> (r: TextOption)
        ensures
            r.weight is None && r.no_stem is None && r.phonetic is None,
            r.sortable is None && r.no_index is None && r.with_suffix_trie is None,
    {
        TextOption { weight: None, no_stem: None, phonetic: None, sortable: None, no_index: None, with_suffix_trie: None }
    }
}

impl TextOption {
    /// The text field `name` with these options.
    pub fn into_field(&self, name: &str) -> (r: TextField)
        ensures
            r.field_name@ == name@,
            opt_view(r.weight) == opt_view(self.weight),
            r.no_stem == self.no_stem,
            r.phonetic == self.phonetic,
            r.sortable == self.sortable,
            r.no_index == self.no_index,
            r.with_suffix_trie == self.with_suffix_trie,
    {
        TextField {
            field_name: String::from_str(name),
            weight: clone_opt(&self.weight),
            no_stem: self.no_stem,
            phonetic: self.phonetic,
            sortable: self.sortable,
            no_index: self.no_index,
            with_suffix_trie: self.with_suffix_trie,
        }
    }
}

/// The configuration of a tag field.
#[derive(Debug)]
pub struct TagOption {
    pub separator: Option<String>,
    pub case_sensitive: Option<bool>,
}

impl Default for TagOption {
    fn default() -> (r: TagOption)
        ensures
            r.separator is None && r.case_sensitive is None,
    {
        TagOption { separator: None, case_sensitive: None }
    }
}

impl TagOption {
    /// The tag field `name` with these options.
    pub fn into_field(&self, name: &str) -> (r: TagField)
        ensures
            r.field_name@ == name@,
            opt_view(r.separator) == opt_view(self.separator),
            r.case_sensitive == self.case_sensitive,
    {
        TagField {
            field_name: String::from_str(name),
            separator: clone_opt(&self.separator),
            case_sensitive: self.case_sensitive,
        }
    }
}

/// The configuration of a geographic field.
#[derive(Debug)]
pub struct GeoOption {
    pub sortable: Option<bool>,
    pub no_index: Option<bool>,
}

impl Default for GeoOption {
    fn default() -> (r: GeoOption)
        ensures
            r.sortable is None && r.no_index is None,
    {
        GeoOption { sortable: None, no_index: None }
    }
}

impl GeoOption {
    /// The geographic field `name` with these options.
    pub fn into_field(&self, name: &str) -> (r: GeoField)
        ensures
            r.field_name@ == name@,
            r.sortable == self.sortable,
            r.no_index == self.no_index,
    {
        GeoField { field_name: String::from_str(name), sortable: self.sortable, no_index: self.no_index }
    }
}

/// The configuration of a numeric field. An absent flag is false.
#[derive(Debug)]
pub struct NumberOption {
    pub sortable: Option<bool>,
    pub unf: Option<bool>,
    pub no_index: Option<bool>,
}

impl Default for NumberOption {
    fn default() -> (r: NumberOption)
        ensures
            r.sortable is None && r.unf is None && r.no_index is None,
    {
        NumberOption { sortable: None, unf: None, no_index: None }
    }
}

/// The flag's value, false when absent.
pub open spec fn flag_or_false(b: Option<bool>) -> bool {
    b == Some(true)
}

impl NumberOption {
    /// The numeric field `name`; every flag is set explicitly.
    pub fn into_field(&self, name: &str) -> (r: NumberField)
        ensures
            r.field_name@ == name@,
            r.sortable == flag_or_false(self.sortable),
            r.unf == flag_or_false(self.unf),
            r.no_index == flag_or_false(self.no_index),
    {
        NumberField {
            field_name: String::from_str(name),
            sortable: self.sortable == Some(true),
            unf: self.unf == Some(true),
            no_index: self.no_index == Some(true),
        }
    }
}

/// The configuration of a vector field. Algorithm, element type, dimension
/// and distance metric are required; the tuning options are not.
#[derive(Debug)]
pub struct VectorOption {
    pub datatype: Option<VectorDataType>,
    pub algorithm: Option<VectorAlgorithm>,
    pub dim: Option<usize>,
    pub distance_metric: Option<DistanceMetric>,
    pub initial_cap: Option<usize>,
    pub block_size: Option<usize>,
    pub m: Option<usize>,
    pub ef_construction: Option<usize>,
    pub ef_runtime: Option<usize>,
    pub epsilon: Option<usize>,
}

impl Default for VectorOption {
    fn default() -> (r: VectorOption)
        ensures
            r.datatype is None && r.algorithm is None && r.dim is None && r.distance_metric is None,
            r.initial_cap is None && r.block_size is None && r.m is None,
            r.ef_construction is None && r.ef_runtime is None && r.epsilon is None,
    {
        VectorOption {
            datatype: None,
            algorithm: None,
            dim: None,
            distance_metric: None,
            initial_cap: None,
            block_size: None,
            m: None,
            ef_construction: None,
            ef_runtime: None,
            epsilon: None,
        }
    }
}

impl VectorOption {
    /// The first required option that is missing, checked in the order
    /// algorithm, element type, distance metric, dimension.
    pub open spec fn missing(&self) -> Option<ConfigError> {
        if self.algorithm is None {
            Some(ConfigError::MissingAlgorithm)
        } else if self.datatype is None {
            Some(ConfigError::MissingDataType)
        } else if self.distance_metric is None {
            Some(ConfigError::MissingDistanceMetric)
        } else if self.dim is None {
            Some(ConfigError::MissingDim)
        } else {
            None
        }
    }

    /// The vector field `name`, or the first missing required option.
    pub fn into_field(&self, name: &str) -> (r: Result<VectorField, ConfigError>)
        ensures
            self.missing() is Some <==> r is Err,
            self.missing() is Some ==> r == Err::<VectorField, ConfigError>(self.missing()->0),
            r is Ok ==> ({
                let f = r->Ok_0;
                &&& f.field_name@ == name@
                &&& Some(f.algorithm) == self.algorithm
                &&& Some(f.vector_type) == match self.datatype {
                    Some(d) => Some(vector_type_of(d)),
                    None => None,
                }
                &&& Some(f.distance_metric) == self.distance_metric
                &&& Some(f.dim) == self.dim
                &&& f.initial_cap == self.initial_cap
                &&& f.block_size == self.block_size
                &&& f.m == self.m
                &&& f.ef_construction == self.ef_construction
                &&& f.ef_runtime == self.ef_runtime
                &&& f.epsilon == self.epsilon
            }),
    {
        let algorithm = match self.algorithm {
            Some(a) => a,
            None => return Err(ConfigError::MissingAlgorithm),
        };
        let vector_type = match self.datatype {
            Some(VectorDataType::F32) => VectorType::Float32,
            Some(VectorDataType::F64) => VectorType::Float64,
            None => return Err(ConfigError::MissingDataType),
        };
        let distance_metric = match self.distance_metric {
            Some(d) => d,
            None => return Err(ConfigError::MissingDistanceMetric),
        };
        let dim = match self.dim {
            Some(d) => d,
            None => return Err(ConfigError::MissingDim),
        };
        Ok(
            VectorField {
                field_name: String::from_str(name),
                vector_type,
                dim,
                algorithm,
                distance_metric,
                initial_cap: self.initial_cap,
                block_size: self.block_size,
                m: self.m,
                ef_construction: self.ef_construction,
                ef_runtime: self.ef_runtime,
                epsilon: self.epsilon,
            },
        )
    }
}

} // verus!
