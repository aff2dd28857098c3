//! The field catalog: typed field descriptors, their query operations and
//! their schema descriptions.
use vstd::prelude::*;

use crate::args::{decimal, join, join_strs, str_views, usize_text};
use crate::create::{opt_view, FieldOption, SchemaField};
use crate::expr::{filter_view, Expr, ExprView};

verus! {

/// The phonetic matcher of a text field, one per supported language.
#[derive(Debug, Clone, Copy, PartialEq, Eq, Structural)]
pub enum PhoneticMatcher {
    DMEN,
    DMFR,
    DMPT,
    DMES,
}

/// The protocol code of a phonetic matcher.
pub open spec fn phonetic_code(p: PhoneticMatcher) -> Seq<char> {
    match p {
        PhoneticMatcher::DMEN => "dm:en"@,
        PhoneticMatcher::DMFR => "dm:fr"@,
        PhoneticMatcher::DMPT => "dm:pt"@,
        PhoneticMatcher::DMES => "dm:es"@,
    }
}

impl PhoneticMatcher {
    /// The protocol code of the matcher.
    pub fn as_str(&self) -> (r: &'static str)
        ensures
            r@ == phonetic_code(*self),
    {
        match self {
            PhoneticMatcher::DMEN => "dm:en",
            PhoneticMatcher::DMFR => "dm:fr",
            PhoneticMatcher::DMPT => "dm:pt",
            PhoneticMatcher::DMES => "dm:es",
        }
    }
}

/// The index algorithm of a vector field.
#[derive(Debug, Clone, Copy, PartialEq, Eq, Structural)]
pub enum VectorAlgorithm {
    FLAT,
    HNSW,
}

/// The protocol name of a vector algorithm.
pub open spec fn algorithm_name(a: VectorAlgorithm) -> Seq<char> {
    match a {
        VectorAlgorithm::FLAT => "FLAT"@,
        VectorAlgorithm::HNSW => "HNSW"@,
    }
}

impl VectorAlgorithm {
    /// The protocol name of the algorithm.
    pub fn as_str(&self) -> (r: &'static str)
        ensures
            r@ == algorithm_name(*self),
    {
        match self {
            VectorAlgorithm::FLAT => "FLAT",
            VectorAlgorithm::HNSW => "HNSW",
        }
    }
}

/// The distance metric of a vector field.
#[derive(Debug, Clone, Copy, PartialEq, Eq, Structural)]
pub enum DistanceMetric {
    L2,
    IP,
    COSINE,
}

/// The protocol name of a distance metric.
pub open spec fn metric_name(m: DistanceMetric) -> Seq<char> {
    match m {
        DistanceMetric::L2 => "L2"@,
        DistanceMetric::IP => "IP"@,
        DistanceMetric::COSINE => "COSINE"@,
    }
}

impl DistanceMetric {
    /// The protocol name of the metric.
    pub fn as_str(&self) -> (r: &'static str)
        ensures
            r@ == metric_name(*self),
    {
        match self {
            DistanceMetric::L2 => "L2",
            DistanceMetric::IP => "IP",
            DistanceMetric::COSINE => "COSINE",
        }
    }
}

/// The element type of a vector field.
#[derive(Debug, Clone, Copy, PartialEq, Eq, Structural)]
pub enum VectorType {
    Float32,
    Float64,
}

/// The protocol name of a vector element type.
pub open spec fn vector_type_name(t: VectorType) -> Seq<char> {
    match t {
        VectorType::Float32 => "FLOAT32"@,
        VectorType::Float64 => "FLOAT64"@,
    }
}

impl VectorType {
    /// The protocol name of the element type.
    pub fn as_str(&self) -> (r: &'static str)
        ensures
            r@ == vector_type_name(*self),
    {
        match self {
            VectorType::Float32 => "FLOAT32",
            VectorType::Float64 => "FLOAT64",
        }
    }
}

/// A declared index attribute: its name and its schema description.
pub trait Field {
    /// The attribute's name.
    spec fn name_view(&self) -> Seq<char>;

    /// `r` is the schema field that describes this attribute.
    spec fn describes(&self, r: SchemaField) -> bool;

    /// The attribute's name.
    fn field_name(&self) -> (r: &str)
        ensures
            r@ == self.name_view(),
    ;

    /// The schema field that describes this attribute.
    fn to_schema_fields(&self) -> (r: SchemaField)
        ensures
            self.describes(r),
    ;
}

/// A schema field of the given name and type with no alias.
pub open spec fn plain_schema(r: SchemaField, name: Seq<char>, field_type: Seq<char>) -> bool {
    &&& r.identifier@ == name
    &&& r.attribute is None
    &&& r.field_type@ == field_type
}

/// A membership filter: `@name:{ v1 | v2 | ... }`, negated with a leading `-`.
pub open spec fn membership_filter(negated: bool, name: Seq<char>, values: Seq<Seq<char>>) -> Seq<char> {
    (if negated { "-@"@ } else { "@"@ }) + name + ":{ "@ + join(values, " | "@) + " }"@
}

fn membership(negated: bool, name: &str, values: &[&str]) -> (r: String)
    ensures
        r@ == membership_filter(negated, name@, str_views(values@)),
{
    let mut s = if negated { String::from_str("-@") } else { String::from_str("@") };
    s.append(name);
    s.append(":{ ");
    let joined = join_strs(values, " | ");
    s.append(joined.as_str());
    s.append(" }");
    assert(s@ =~= membership_filter(negated, name@, str_views(values@)));
    s
}

/// A full-text field.
#[derive(Debug)]
pub struct TextField {
    pub field_name: String,
    /// The weight, as decimal text.
    pub weight: Option<String>,
    pub no_stem: Option<bool>,
    pub phonetic: Option<PhoneticMatcher>,
    pub sortable: Option<bool>,
    pub no_index: Option<bool>,
    /// Accepted as configuration; the schema description does not carry it.
    pub with_suffix_trie: Option<bool>,
}

impl Field for TextField {
    open spec fn name_view(&self) -> Seq<char> {
        self.field_name@
    }

    open spec fn describes(&self, r: SchemaField) -> bool {
        &&& plain_schema(r, self.field_name@, "TEXT"@)
        &&& opt_view(r.options.weight) == opt_view(self.weight)
        &&& r.options.nostem == self.no_stem
        &&& r.options.phonetic == self.phonetic
        &&& r.options.sortable == self.sortable
        &&& r.options.noindex == self.no_index
        &&& (FieldOption { weight: None, nostem: None, phonetic: None, sortable: None, noindex: None, ..r.options }).is_empty()
    }

    fn field_name(&self) -> (r: &str) {
        self.field_name.as_str()
    }

    fn to_schema_fields(&self) -> (r: SchemaField) {
        let weight = match &self.weight {
            Some(w) => Some(w.clone()),
            None => None,
        };
        SchemaField {
            identifier: self.field_name.clone(),
            attribute: None,
            field_type: "TEXT",
            options: FieldOption {
                weight,
                nostem: self.no_stem,
                phonetic: self.phonetic,
                sortable: self.sortable,
                noindex: self.no_index,
                ..FieldOption::default()
            },
        }
    }
}

impl TextField {
    /// Matches the one value: the same as `contains` of a one-element list.
    pub fn eq(&self, value: &str) -> (r: Expr)
        ensures
            r.wf(),
            r@ == filter_view(membership_filter(false, self.field_name@, seq![value@])),
    {
        let values = [value];
        let r = self.contains(&values);
        assert(str_views(values@) =~= seq![value@]);
        r
    }

    /// Matches any of the values: `@field:{ v1 | v2 | ... }`.
    pub fn contains(&self, values: &[&str]) -> (r: Expr)
        ensures
            r.wf(),
            r@ == filter_view(membership_filter(false, self.field_name@, str_views(values@))),
    {
        Expr::from_filter(membership(false, self.field_name.as_str(), values))
    }

    /// Matches none of the values: `-@field:{ v1 | v2 | ... }`.
    pub fn not_contains(&self, values: &[&str]) -> (r: Expr)
        ensures
            r.wf(),
            r@ == filter_view(membership_filter(true, self.field_name@, str_views(values@))),
    {
        Expr::from_filter(membership(true, self.field_name.as_str(), values))
    }
}

/// A tag field.
#[derive(Debug)]
pub struct TagField {
    pub field_name: String,
    pub separator: Option<String>,
    pub case_sensitive: Option<bool>,
}

impl Field for TagField {
    open spec fn name_view(&self) -> Seq<char> {
        self.field_name@
    }

    open spec fn describes(&self, r: SchemaField) -> bool {
        &&& plain_schema(r, self.field_name@, "TAG"@)
        &&& opt_view(r.options.separator) == opt_view(self.separator)
        &&& r.options.casesensitive == self.case_sensitive
        &&& (FieldOption { separator: None, casesensitive: None, ..r.options }).is_empty()
    }

    fn field_name(&self) -> (r: &str) {
        self.field_name.as_str()
    }

    fn to_schema_fields(&self) -> (r: SchemaField) {
        let separator = match &self.separator {
            Some(s) => Some(s.clone()),
            None => None,
        };
        SchemaField {
            identifier: self.field_name.clone(),
            attribute: None,
            field_type: "TAG",
            options: FieldOption { separator, casesensitive: self.case_sensitive, ..FieldOption::default() },
        }
    }
}

impl TagField {
    /// A tag field with no separator or case option.
    pub fn new(name: &str) -> (r: TagField)
        ensures
            r.field_name@ == name@,
            r.separator is None,
            r.case_sensitive is None,
    {
        TagField { field_name: String::from_str(name), separator: None, case_sensitive: None }
    }

    /// Matches any of the values: `@field:{ v1 | v2 | ... }`.
    pub fn contains(&self, values: &[&str]) -> (r: Expr)
        ensures
            r.wf(),
            r@ == filter_view(membership_filter(false, self.field_name@, str_views(values@))),
    {
        Expr::from_filter(membership(false, self.field_name.as_str(), values))
    }
}

/// A geographic field.
#[derive(Debug)]
pub struct GeoField {
    pub field_name: String,
    pub sortable: Option<bool>,
    pub no_index: Option<bool>,
}

/// The radius filter `@name:[lon lat radius unit]`.
pub open spec fn geo_filter(name: Seq<char>, lon: Seq<char>, lat: Seq<char>, radius: nat, unit: Seq<char>) -> Seq<char> {
    "@"@ + name + ":["@ + lon + " "@ + lat + " "@ + decimal(radius) + " "@ + unit + "]"@
}

impl Field for GeoField {
    open spec fn name_view(&self) -> Seq<char> {
        self.field_name@
    }

    open spec fn describes(&self, r: SchemaField) -> bool {
        &&& plain_schema(r, self.field_name@, "GEO"@)
        &&& r.options.sortable == self.sortable
        &&& r.options.noindex == self.no_index
        &&& (FieldOption { sortable: None, noindex: None, ..r.options }).is_empty()
    }

    fn field_name(&self) -> (r: &str) {
        self.field_name.as_str()
    }

    fn to_schema_fields(&self) -> (r: SchemaField) {
        SchemaField {
            identifier: self.field_name.clone(),
            attribute: None,
            field_type: "GEO",
            options: FieldOption { sortable: self.sortable, noindex: self.no_index, ..FieldOption::default() },
        }
    }
}

impl GeoField {
    /// A geographic field of the given name, with no option.
    pub fn new(name: &str) -> (r: GeoField)
        ensures
            r.field_name@ == name@,
            r.sortable is None,
            r.no_index is None,
    {
        GeoField { field_name: String::from_str(name), sortable: None, no_index: None }
    }

    /// Matches points within `radius` `unit`s of (`lon`, `lat`), the
    /// coordinates given as decimal text. Binds no parameter.
    pub fn query(&self, lon: &str, lat: &str, radius: usize, unit: &str) -> (r: Expr)
        ensures
            r.wf(),
            r@ == filter_view(geo_filter(self.field_name@, lon@, lat@, radius as nat, unit@)),
    {
        let mut s = String::from_str("@");
        s.append(self.field_name.as_str());
        s.append(":[");
        s.append(lon);
        s.append(" ");
        s.append(lat);
        s.append(" ");
        let r = usize_text(radius);
        s.append(r.as_str());
        s.append(" ");
        s.append(unit);
        s.append("]");
        assert(s@ =~= geo_filter(self.field_name@, lon@, lat@, radius as nat, unit@));
        Expr::from_filter(s)
    }
}

/// One end of a numeric range. Numbers are given as their decimal text.
#[derive(Debug)]
pub enum RangeBound {
    Included(String),
    Excluded(String),
    Unbounded,
}

/// The encoded start of a range: `v`, `(v` or `-inf`.
pub open spec fn start_text(b: RangeBound) -> Seq<char> {
    match b {
        RangeBound::Included(v) => v@,
        RangeBound::Excluded(v) => "("@ + v@,
        RangeBound::Unbounded => "-inf"@,
    }
}

/// The encoded end of a range: `v`, `(v` or `+inf`.
pub open spec fn end_text(b: RangeBound) -> Seq<char> {
    match b {
        RangeBound::Included(v) => v@,
        RangeBound::Excluded(v) => "("@ + v@,
        RangeBound::Unbounded => "+inf"@,
    }
}

/// The range filter `@name:[start end]`, negated with a leading `-`.
pub open spec fn range_filter(negated: bool, name: Seq<char>, start: Seq<char>, end: Seq<char>) -> Seq<char> {
    (if negated { "-@"@ } else { "@"@ }) + name + ":["@ + start + " "@ + end + "]"@
}

fn range_string(negated: bool, name: &str, start: &str, end: &str) -> (r: String)
    ensures
        r@ == range_filter(negated, name@, start@, end@),
{
    let mut s = if negated { String::from_str("-@") } else { String::from_str("@") };
    s.append(name);
    s.append(":[");
    s.append(start);
    s.append(" ");
    s.append(end);
    s.append("]");
    assert(s@ =~= range_filter(negated, name@, start@, end@));
    s
}

fn bound_string(b: &RangeBound, is_start: bool) -> (r: String)
    ensures
        r@ == if is_start { start_text(*b) } else { end_text(*b) },
{
    match b {
        RangeBound::Included(v) => v.clone(),
        RangeBound::Excluded(v) => {
            let mut s = String::from_str("(");
            s.append(v.as_str());
            s
        },
        RangeBound::Unbounded => if is_start {
            String::from_str("-inf")
        } else {
            String::from_str("+inf")
        },
    }
}

/// A numeric field.
#[derive(Debug)]
pub struct NumberField {
    pub field_name: String,
    pub sortable: bool,
    pub unf: bool,
    pub no_index: bool,
}

impl Field for NumberField {
    open spec fn name_view(&self) -> Seq<char> {
        self.field_name@
    }

    open spec fn describes(&self, r: SchemaField) -> bool {
        &&& plain_schema(r, self.field_name@, "NUMERIC"@)
        &&& r.options.sortable == Some(self.sortable)
        &&& r.options.unf == Some(self.unf)
        &&& r.options.noindex == Some(self.no_index)
        &&& (FieldOption { sortable: None, unf: None, noindex: None, ..r.options }).is_empty()
    }

    fn field_name(&self) -> (r: &str) {
        self.field_name.as_str()
    }

    fn to_schema_fields(&self) -> (r: SchemaField) {
        SchemaField {
            identifier: self.field_name.clone(),
            attribute: None,
            field_type: "NUMERIC",
            options: FieldOption {
                sortable: Some(self.sortable),
                unf: Some(self.unf),
                noindex: Some(self.no_index),
                ..FieldOption::default()
            },
        }
    }
}

impl NumberField {
    /// Matches values in the range from `start` to `end`.
    pub fn in_range(&self, start: &RangeBound, end: &RangeBound) -> (r: Expr)
        ensures
            r.wf(),
            r@ == filter_view(range_filter(false, self.field_name@, start_text(*start), end_text(*end))),
    {
        let s = bound_string(start, true);
        let e = bound_string(end, false);
        Expr::from_filter(range_string(false, self.field_name.as_str(), s.as_str(), e.as_str()))
    }

    /// Matches the one value: the closed range `[v v]`.
    pub fn eq(&self, number: &str) -> (r: Expr)
        ensures
            r.wf(),
            r@ == filter_view(range_filter(false, self.field_name@, number@, number@)),
    {
        Expr::from_filter(range_string(false, self.field_name.as_str(), number, number))
    }

    /// Matches every value but the one: `-@field:[v v]`.
    pub fn ne(&self, number: &str) -> (r: Expr)
        ensures
            r.wf(),
            r@ == filter_view(range_filter(true, self.field_name@, number@, number@)),
    {
        Expr::from_filter(range_string(true, self.field_name.as_str(), number, number))
    }
}

/// A vector field.
#[derive(Debug)]
pub struct VectorField {
    pub field_name: String,
    pub vector_type: VectorType,
    pub dim: usize,
    pub algorithm: VectorAlgorithm,
    pub distance_metric: DistanceMetric,
    pub initial_cap: Option<usize>,
    pub block_size: Option<usize>,
    pub m: Option<usize>,
    pub ef_construction: Option<usize>,
    pub ef_runtime: Option<usize>,
    pub epsilon: Option<usize>,
}

/// One when the option is present, else zero.
pub open spec fn present(o: Option<usize>) -> nat {
    if o is Some { 1 } else { 0 }
}

fn present_count(o: Option<usize>) -> (r: usize)
    ensures
        r == present(o),
{
    if o.is_some() { 1 } else { 0 }
}

/// The name of the parameter that a KNN clause binds: `$` and the given
/// name, or `$vec`.
pub open spec fn knn_param(name: Option<Seq<char>>) -> Seq<char> {
    "$"@ + match name {
        Some(n) => n,
        None => "vec"@,
    }
}

/// The KNN clause `[KNN topk @field $param]`.
pub open spec fn knn_clause(topk: nat, field: Seq<char>, param: Seq<char>) -> Seq<char> {
    "[KNN "@ + decimal(topk) + " @"@ + field + " "@ + param + "]"@
}

/// The expression of a KNN query: no filter, the clause, and its one
/// parameter bound to the embedding.
pub open spec fn knn_view(topk: nat, field: Seq<char>, param: Seq<char>, embedding: Seq<u8>) -> ExprView {
    ExprView {
        filter: Seq::empty(),
        knn: Some(knn_clause(topk, field, param)),
        params: seq![(param, embedding)],
        error: None,
        dialect: None,
        sort_by: None,
    }
}

impl VectorField {
    /// The protocol length field: six plus two per present tuning option.
    pub open spec fn option_count(&self) -> nat {
        6 + 2 * (present(self.initial_cap) + present(self.block_size) + present(self.m) + present(
            self.ef_construction,
        ) + present(self.ef_runtime) + present(self.epsilon))
    }

    /// A nearest-neighbour query for `embedding`, given as its raw bytes.
    pub fn query(&self, embedding: &[u8], topk: usize, param_name: Option<&str>) -> (r: Expr)
        ensures
            r.wf(),
            r@ == knn_view(
                topk as nat,
                self.field_name@,
                knn_param(
                    match param_name {
                        Some(n) => Some(n@),
                        None => None,
                    },
                ),
                embedding@,
            ),
    {
        let mut param = String::from_str("$");
        match param_name {
            Some(n) => param.append(n),
            None => param.append("vec"),
        }
        let mut knn = String::from_str("[KNN ");
        let k = usize_text(topk);
        knn.append(k.as_str());
        knn.append(" @");
        knn.append(self.field_name.as_str());
        knn.append(" ");
        knn.append(param.as_str());
        knn.append("]");
        assert(knn@ =~= knn_clause(topk as nat, self.field_name@, param@));
        let mut value: Vec<u8> = Vec::new();
        let mut i: usize = 0;
        while i < embedding.len()
            invariant
                0 <= i <= embedding@.len(),
                value@ == embedding@.take(i as int),
            decreases embedding@.len() - i,
        {
            value.push(embedding[i]);
            assert(value@ =~= embedding@.take(i + 1));
            i = i + 1;
        }
        assert(embedding@.take(embedding@.len() as int) =~= embedding@);
        Expr::from_knn(knn, param, value)
    }
}

impl Field for VectorField {
    open spec fn name_view(&self) -> Seq<char> {
        self.field_name@
    }

    open spec fn describes(&self, r: SchemaField) -> bool {
        &&& plain_schema(r, self.field_name@, "VECTOR"@)
        &&& r.options.algorithm == Some(self.algorithm)
        &&& r.options.count is Some
        &&& r.options.count->0 == self.option_count()
        &&& r.options.vector_type == Some(self.vector_type)
        &&& r.options.dim == Some(self.dim)
        &&& r.options.distance_metric == Some(self.distance_metric)
        &&& r.options.initial_cap == self.initial_cap
        &&& r.options.block_size == self.block_size
        &&& r.options.m == self.m
        &&& r.options.ef_construction == self.ef_construction
        &&& r.options.ef_runtime == self.ef_runtime
        &&& r.options.epsilon == self.epsilon
        &&& (FieldOption {
            algorithm: None,
            count: None,
            vector_type: None,
            dim: None,
            distance_metric: None,
            initial_cap: None,
            block_size: None,
            m: None,
            ef_construction: None,
            ef_runtime: None,
            epsilon: None,
            ..r.options
        }).is_empty()
    }

    fn field_name(&self) -> (r: &str) {
        self.field_name.as_str()
    }

    fn to_schema_fields(&self) -> (r: SchemaField) {
        let present_options = present_count(self.initial_cap) + present_count(self.block_size) + present_count(self.m)
            + present_count(self.ef_construction) + present_count(self.ef_runtime) + present_count(self.epsilon);
        SchemaField {
            identifier: self.field_name.clone(),
            attribute: None,
            field_type: "VECTOR",
            options: FieldOption {
                algorithm: Some(self.algorithm),
                count: Some(6 + 2 * present_options),
                vector_type: Some(self.vector_type),
                dim: Some(self.dim),
                distance_metric: Some(self.distance_metric),
                initial_cap: self.initial_cap,
                block_size: self.block_size,
                m: self.m,
                ef_construction: self.ef_construction,
                ef_runtime: self.ef_runtime,
                epsilon: self.epsilon,
                ..FieldOption::default()
            },
        }
    }
}

/// The encodings of numeric ranges: `..v` is `[-inf (v]`, `..=v` is
/// `[-inf v]`, `v1..v2` is `[v1 (v2]`, and `eq(v)` gives the same filter as
/// the closed range `v..=v`, namely `[v v]`.
pub proof fn lemma_number_range_encoding(field: NumberField, v: String, v1: String, v2: String)
    ensures
        range_filter(false, field.field_name@, start_text(RangeBound::Unbounded), end_text(RangeBound::Excluded(v)))
            == "@"@ + field.field_name@ + ":[-inf ("@ + v@ + "]"@,
        range_filter(false, field.field_name@, start_text(RangeBound::Unbounded), end_text(RangeBound::Included(v)))
            == "@"@ + field.field_name@ + ":[-inf "@ + v@ + "]"@,
        range_filter(
            false,
            field.field_name@,
            start_text(RangeBound::Included(v1)),
            end_text(RangeBound::Excluded(v2)),
        ) == "@"@ + field.field_name@ + ":["@ + v1@ + " ("@ + v2@ + "]"@,
        range_filter(false, field.field_name@, v@, v@) == range_filter(
            false,
            field.field_name@,
            start_text(RangeBound::Included(v)),
            end_text(RangeBound::Included(v)),
        ),
        range_filter(false, field.field_name@, v@, v@) == "@"@ + field.field_name@ + ":["@ + v@ + " "@ + v@ + "]"@,
{
    reveal_strlit(":[");
    reveal_strlit(":[-inf (");
    reveal_strlit(":[-inf ");
    reveal_strlit("-inf");
    reveal_strlit(" ");
    reveal_strlit(" (");
    reveal_strlit("(");
    let n = field.field_name@;
    assert("@"@ + n + ":["@ + "-inf"@ + " "@ + ("("@ + v@) + "]"@ =~= "@"@ + n + ":[-inf ("@ + v@ + "]"@);
    assert("@"@ + n + ":["@ + "-inf"@ + " "@ + v@ + "]"@ =~= "@"@ + n + ":[-inf "@ + v@ + "]"@);
    assert("@"@ + n + ":["@ + v1@ + " "@ + ("("@ + v2@) + "]"@ =~= "@"@ + n + ":["@ + v1@ + " ("@ + v2@ + "]"@);
}

/// The option count of a vector field's schema stays in lockstep with what
/// is emitted: after the algorithm and the count itself come exactly `count`
/// arguments.
pub proof fn lemma_vector_count_in_lockstep(field: VectorField, r: SchemaField)
    requires
        field.describes(r),
    ensures
        r.options.with_vector(Seq::empty()).len() == r.options.count->0 + 2,
{
}

} // verus!
