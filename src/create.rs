//! The index-creation command: schema fields, their options, the index
//! options, storage-mode defaulting and the encoding as arguments.
use vstd::prelude::*;

use crate::args::{args_view, decimal, push_count, push_text, text, Arg, ArgView};
use crate::field::{
    algorithm_name, metric_name, phonetic_code, vector_type_name, DistanceMetric, PhoneticMatcher,
    VectorAlgorithm, VectorType,
};

verus! {

/// The storage mode of an index.
#[derive(Debug, Clone, Copy, PartialEq, Eq, Structural)]
pub enum DataType {
    Hash,
    Json,
}

/// The protocol name of a storage mode.
pub open spec fn data_type_name(d: DataType) -> Seq<char> {
    match d {
        DataType::Hash => "HASH"@,
        DataType::Json => "JSON"@,
    }
}

impl DataType {
    /// The protocol name of the storage mode.
    pub fn as_str(&self) -> (r: &'static str)
        ensures
            r@ == data_type_name(*self),
    {
        match self {
            DataType::Hash => "HASH",
            DataType::Json => "JSON",
        }
    }
}

/// A list of key prefixes.
#[derive(Debug)]
pub struct Prefix {
    pub prefixs: Vec<String>,
}

/// The modifiers of one schema field. Numbers that the protocol takes as
/// decimal text (the weight) are held as that text.
#[derive(Debug)]
pub struct FieldOption {
    pub sortable: Option<bool>,
    pub unf: Option<bool>,
    pub nostem: Option<bool>,
    pub noindex: Option<bool>,
    pub phonetic: Option<PhoneticMatcher>,
    pub weight: Option<String>,
    pub separator: Option<String>,
    pub casesensitive: Option<bool>,
    pub withsuffixtrie: Option<bool>,
    pub algorithm: Option<VectorAlgorithm>,
    pub count: Option<usize>,
    pub vector_type: Option<VectorType>,
    pub dim: Option<usize>,
    pub distance_metric: Option<DistanceMetric>,
    pub initial_cap: Option<usize>,
    pub block_size: Option<usize>,
    pub m: Option<usize>,
    pub ef_construction: Option<usize>,
    pub ef_runtime: Option<usize>,
    pub epsilon: Option<usize>,
}

/// A keyword emitted only when the flag is set to true.
pub open spec fn flag_args(b: Option<bool>, name: Seq<char>) -> Seq<ArgView> {
    if b == Some(true) {
        seq![text(name)]
    } else {
        Seq::empty()
    }
}

/// A keyword followed by a text value, when the value is present.
pub open spec fn text_opt_args(o: Option<Seq<char>>, name: Seq<char>) -> Seq<ArgView> {
    match o {
        Some(v) => seq![text(name), text(v)],
        None => Seq::empty(),
    }
}

/// A keyword followed by a decimal count, when the count is present.
pub open spec fn count_opt_args(o: Option<usize>, name: Seq<char>) -> Seq<ArgView> {
    match o {
        Some(n) => seq![text(name), text(decimal(n as nat))],
        None => Seq::empty(),
    }
}

/// The phonetic modifier, when present.
pub open spec fn phonetic_args(p: Option<PhoneticMatcher>) -> Seq<ArgView> {
    match p {
        Some(p) => seq![text("PHONETIC"@), text(phonetic_code(p))],
        None => Seq::empty(),
    }
}

/// The vector algorithm, when present.
pub open spec fn algorithm_args(a: Option<VectorAlgorithm>) -> Seq<ArgView> {
    match a {
        Some(a) => seq![text(algorithm_name(a))],
        None => Seq::empty(),
    }
}

/// A bare decimal count, when present.
pub open spec fn bare_count_args(c: Option<usize>) -> Seq<ArgView> {
    match c {
        Some(c) => seq![text(decimal(c as nat))],
        None => Seq::empty(),
    }
}

/// The vector element type, when present.
pub open spec fn vector_type_args(t: Option<VectorType>) -> Seq<ArgView> {
    match t {
        Some(t) => seq![text("TYPE"@), text(vector_type_name(t))],
        None => Seq::empty(),
    }
}

/// The distance metric, when present.
pub open spec fn metric_args(d: Option<DistanceMetric>) -> Seq<ArgView> {
    match d {
        Some(d) => seq![text("DISTANCE_METRIC"@), text(metric_name(d))],
        None => Seq::empty(),
    }
}

/// The view of an optional string.
pub open spec fn opt_view(o: Option<String>) -> Option<Seq<char>> {
    match o {
        Some(s) => Some(s@),
        None => None,
    }
}

fn push_flag(out: &mut Vec<Arg>, b: Option<bool>, name: &str)
    ensures
        args_view(final(out)@) == args_view(old(out)@) + flag_args(b, name@),
{
    let ghost start = args_view(out@);
    if let Some(true) = b {
        push_text(out, name);
    }
    assert(args_view(out@) =~= start + flag_args(b, name@));
}

fn push_text_opt(out: &mut Vec<Arg>, o: &Option<String>, name: &str)
    ensures
        args_view(final(out)@) == args_view(old(out)@) + text_opt_args(opt_view(*o), name@),
{
    let ghost start = args_view(out@);
    if let Some(v) = o {
        push_text(out, name);
        push_text(out, v.as_str());
    }
    assert(args_view(out@) =~= start + text_opt_args(opt_view(*o), name@));
}

fn push_count_opt(out: &mut Vec<Arg>, o: Option<usize>, name: &str)
    ensures
        args_view(final(out)@) == args_view(old(out)@) + count_opt_args(o, name@),
{
    let ghost start = args_view(out@);
    if let Some(n) = o {
        push_text(out, name);
        push_count(out, n);
    }
    assert(args_view(out@) =~= start + count_opt_args(o, name@));
}

impl FieldOption {
    /// No modifier at all.
    pub open spec fn is_empty(&self) -> bool {
        &&& self.sortable is None && self.unf is None && self.nostem is None && self.noindex is None
        &&& self.phonetic is None && self.weight is None && self.separator is None
        &&& self.casesensitive is None && self.withsuffixtrie is None
        &&& self.algorithm is None && self.count is None && self.vector_type is None
        &&& self.dim is None && self.distance_metric is None
        &&& self.initial_cap is None && self.block_size is None && self.m is None
        &&& self.ef_construction is None && self.ef_runtime is None && self.epsilon is None
    }

    /// `base` followed by the encoded text, tag and numeric modifiers, in
    /// protocol order.
    pub open spec fn with_flags(&self, base: Seq<ArgView>) -> Seq<ArgView> {
        base + flag_args(self.sortable, "SORTABLE"@) + flag_args(self.unf, "UNF"@) + flag_args(
            self.nostem,
            "NOSTEM"@,
        ) + flag_args(self.noindex, "NOINDEX"@) + phonetic_args(self.phonetic) + text_opt_args(
            opt_view(self.weight),
            "WEIGHT"@,
        ) + text_opt_args(opt_view(self.separator), "SEPARATOR"@) + flag_args(self.casesensitive, "CASESENSITIVE"@)
            + flag_args(self.withsuffixtrie, "WITHSUFFIXTRIE"@)
    }

    /// `base` followed by the encoded vector modifiers, in protocol order.
    pub open spec fn with_vector(&self, base: Seq<ArgView>) -> Seq<ArgView> {
        base + algorithm_args(self.algorithm) + bare_count_args(self.count) + vector_type_args(self.vector_type)
            + count_opt_args(self.dim, "DIM"@) + metric_args(self.distance_metric) + count_opt_args(
            self.initial_cap,
            "INITIAL_CAP"@,
        ) + count_opt_args(self.block_size, "BLOCK_SIZE"@) + count_opt_args(self.m, "M"@) + count_opt_args(
            self.ef_construction,
            "EF_CONSTRUCTION"@,
        ) + count_opt_args(self.ef_runtime, "EF_RUNTIME"@) + count_opt_args(self.epsilon, "EPSILON"@)
    }

    /// `base` followed by all encoded modifiers.
    pub open spec fn with_args(&self, base: Seq<ArgView>) -> Seq<ArgView> {
        self.with_vector(self.with_flags(base))
    }

    fn write_flags(&self, out: &mut Vec<Arg>)
        ensures
            args_view(final(out)@) == self.with_flags(args_view(old(out)@)),
    {
        push_flag(out, self.sortable, "SORTABLE");
        push_flag(out, self.unf, "UNF");
        push_flag(out, self.nostem, "NOSTEM");
        push_flag(out, self.noindex, "NOINDEX");
        let ghost mid = args_view(out@);
        if let Some(p) = &self.phonetic {
            push_text(out, "PHONETIC");
            push_text(out, p.as_str());
        }
        assert(args_view(out@) =~= mid + phonetic_args(self.phonetic));
        push_text_opt(out, &self.weight, "WEIGHT");
        push_text_opt(out, &self.separator, "SEPARATOR");
        push_flag(out, self.casesensitive, "CASESENSITIVE");
        push_flag(out, self.withsuffixtrie, "WITHSUFFIXTRIE");
    }

    fn write_vector(&self, out: &mut Vec<Arg>)
        ensures
            args_view(final(out)@) == self.with_vector(args_view(old(out)@)),
    {
        let ghost s0 = args_view(out@);
        if let Some(a) = &self.algorithm {
            push_text(out, a.as_str());
        }
        assert(args_view(out@) =~= s0 + algorithm_args(self.algorithm));
        let ghost s1 = args_view(out@);
        if let Some(c) = self.count {
            push_count(out, c);
        }
        assert(args_view(out@) =~= s1 + bare_count_args(self.count));
        let ghost s2 = args_view(out@);
        if let Some(t) = &self.vector_type {
            push_text(out, "TYPE");
            push_text(out, t.as_str());
        }
        assert(args_view(out@) =~= s2 + vector_type_args(self.vector_type));
        push_count_opt(out, self.dim, "DIM");
        let ghost s3 = args_view(out@);
        if let Some(d) = &self.distance_metric {
            push_text(out, "DISTANCE_METRIC");
            push_text(out, d.as_str());
        }
        assert(args_view(out@) =~= s3 + metric_args(self.distance_metric));
        push_count_opt(out, self.initial_cap, "INITIAL_CAP");
        push_count_opt(out, self.block_size, "BLOCK_SIZE");
        push_count_opt(out, self.m, "M");
        push_count_opt(out, self.ef_construction, "EF_CONSTRUCTION");
        push_count_opt(out, self.ef_runtime, "EF_RUNTIME");
        push_count_opt(out, self.epsilon, "EPSILON");
    }

    /// Appends the encoded modifiers.
    pub fn write_args(&self, out: &mut Vec<Arg>)
        ensures
            args_view(final(out)@) == self.with_args(args_view(old(out)@)),
    {
        self.write_flags(out);
        self.write_vector(out);
    }
}

impl Default for FieldOption {
    fn default() -> (r: FieldOption)
        ensures
            r.is_empty(),
    {
        FieldOption {
            sortable: None,
            unf: None,
            nostem: None,
            noindex: None,
            phonetic: None,
            weight: None,
            separator: None,
            casesensitive: None,
            withsuffixtrie: None,
            algorithm: None,
            count: None,
            vector_type: None,
            dim: None,
            distance_metric: None,
            initial_cap: None,
            block_size: None,
            m: None,
            ef_construction: None,
            ef_runtime: None,
            epsilon: None,
        }
    }
}

/// One attribute declaration of an index: identifier, optional alias, type
/// tag and modifiers.
#[derive(Debug)]
pub struct SchemaField {
    pub identifier: String,
    pub attribute: Option<String>,
    pub field_type: &'static str,
    pub options: FieldOption,
}

/// The JSON-mode form of `a`: the identifier becomes the path `$.<name>` and
/// the alias the bare field name; type and modifiers are kept.
pub open spec fn json_defaulted(a: SchemaField, b: SchemaField) -> bool {
    &&& b.identifier@ == "$."@ + a.identifier@
    &&& b.attribute is Some
    &&& b.attribute->0@ == a.identifier@
    &&& b.field_type == a.field_type
    &&& b.options == a.options
}

/// `b` is what JSON-mode defaulting makes of `a`: unchanged when `a` already
/// has an alias.
pub open spec fn json_step(a: SchemaField, b: SchemaField) -> bool {
    if a.attribute is Some {
        b == a
    } else {
        json_defaulted(a, b)
    }
}

/// The alias clause, when there is an alias.
pub open spec fn alias_args(a: Option<String>) -> Seq<ArgView> {
    match a {
        Some(a) => seq![text("AS"@), text(a@)],
        None => Seq::empty(),
    }
}

impl SchemaField {
    /// `base` followed by the encoded field.
    pub open spec fn with_args(&self, base: Seq<ArgView>) -> Seq<ArgView> {
        self.options.with_args((base.push(text(self.identifier@)) + alias_args(self.attribute)).push(text(self.field_type@)))
    }

    /// Rewrites the field for a JSON-mode index, unless it already has an alias.
    pub fn mut_as_default_json_field(&mut self)
        ensures
            json_step(*old(self), *final(self)),
    {
        if self.attribute.is_some() {
            return;
        }
        let attribute = self.identifier.clone();
        let mut identifier = String::from_str("$.");
        identifier.append(attribute.as_str());
        self.identifier = identifier;
        self.attribute = Some(attribute);
    }

    /// Appends the encoded field.
    pub fn write_args(&self, out: &mut Vec<Arg>)
        ensures
            args_view(final(out)@) == self.with_args(args_view(old(out)@)),
    {
        push_text(out, self.identifier.as_str());
        let ghost s0 = args_view(out@);
        if let Some(a) = &self.attribute {
            push_text(out, "AS");
            push_text(out, a.as_str());
        }
        assert(args_view(out@) =~= s0 + alias_args(self.attribute));
        push_text(out, self.field_type);
        self.options.write_args(out);
    }
}

/// The options of an index-creation command. The score is held as its
/// decimal text.
#[derive(Debug)]
pub struct IndexOption {
    pub on: Option<DataType>,
    pub prefix: Option<Vec<String>>,
    pub filter: Option<String>,
    pub language: Option<String>,
    pub score: Option<String>,
}

/// The storage-mode clause, when a mode is set.
pub open spec fn on_args(d: Option<DataType>) -> Seq<ArgView> {
    match d {
        Some(d) => seq![text("ON"@), text(data_type_name(d))],
        None => Seq::empty(),
    }
}

/// Each string as a text argument.
pub open spec fn texts(s: Seq<String>) -> Seq<ArgView> {
    s.map_values(|x: String| text(x@))
}

/// The prefix clause: keyword, count, then the prefixes.
pub open spec fn prefix_args(p: Option<Vec<String>>) -> Seq<ArgView> {
    match p {
        Some(v) => seq![text("PREFIX"@), text(decimal(v@.len()))] + texts(v@),
        None => Seq::empty(),
    }
}

impl IndexOption {
    /// `base` followed by the encoded options, in protocol order.
    pub open spec fn with_args(&self, base: Seq<ArgView>) -> Seq<ArgView> {
        base + on_args(self.on) + prefix_args(self.prefix) + text_opt_args(opt_view(self.filter), "FILTER"@)
            + text_opt_args(opt_view(self.language), "LANGUAGE"@) + text_opt_args(opt_view(self.score), "SCORE"@)
    }

    fn write_prefix(&self, out: &mut Vec<Arg>)
        ensures
            args_view(final(out)@) == args_view(old(out)@) + prefix_args(self.prefix),
    {
        let ghost start = args_view(out@);
        if let Some(prefix) = &self.prefix {
            push_text(out, "PREFIX");
            push_count(out, prefix.len());
            let mut i: usize = 0;
            while i < prefix.len()
                invariant
                    0 <= i <= prefix@.len(),
                    args_view(out@) == start + seq![text("PREFIX"@), text(decimal(prefix@.len()))] + texts(
                        prefix@.take(i as int),
                    ),
                decreases prefix@.len() - i,
            {
                push_text(out, prefix[i].as_str());
                assert(texts(prefix@.take(i + 1)) =~= texts(prefix@.take(i as int)).push(text(prefix@[i as int]@)));
                i = i + 1;
            }
            assert(prefix@.take(prefix@.len() as int) =~= prefix@);
        }
        assert(args_view(out@) =~= start + prefix_args(self.prefix));
    }

    /// Appends the encoded options.
    pub fn write_args(&self, out: &mut Vec<Arg>)
        ensures
            args_view(final(out)@) == self.with_args(args_view(old(out)@)),
    {
        let ghost s0 = args_view(out@);
        if let Some(d) = &self.on {
            push_text(out, "ON");
            push_text(out, d.as_str());
        }
        assert(args_view(out@) =~= s0 + on_args(self.on));
        self.write_prefix(out);
        push_text_opt(out, &self.filter, "FILTER");
        push_text_opt(out, &self.language, "LANGUAGE");
        push_text_opt(out, &self.score, "SCORE");
    }
}

impl Default for IndexOption {
    fn default() -> (r: IndexOption)
        ensures
            r.on is None,
            r.prefix is None,
            r.filter is None,
            r.language is None,
            r.score is None,
    {
        IndexOption { on: None, prefix: None, filter: None, language: None, score: None }
    }
}

/// An index-creation command.
#[derive(Debug)]
pub struct FTCreate {
    pub name: String,
    pub option: IndexOption,
    pub schema: Vec<SchemaField>,
}

/// `base` followed by each encoded schema field, in order.
pub open spec fn schema_args(base: Seq<ArgView>, s: Seq<SchemaField>) -> Seq<ArgView>
    decreases s.len(),
{
    if s.len() == 0 {
        base
    } else {
        s.last().with_args(schema_args(base, s.drop_last()))
    }
}

/// `r` is `schema` as an index with `option` stores it: each field through
/// JSON-mode defaulting when the index is JSON, else unchanged; same order.
pub open spec fn compiled_schema(option: IndexOption, schema: Seq<SchemaField>, r: Seq<SchemaField>) -> bool {
    &&& r.len() == schema.len()
    &&& forall|i: int|
        0 <= i < schema.len() ==> if option.on == Some(DataType::Json) {
            json_step(#[trigger] schema[i], r[i])
        } else {
            r[i] == schema[i]
        }
}

impl FTCreate {
    /// A create command; for a JSON-mode index every field without an alias
    /// is rewritten to its JSON path, in declaration order.
    pub fn new(name: String, option: IndexOption, schema: Vec<SchemaField>) -> (r: FTCreate)
        ensures
            r.name == name,
            r.option == option,
            compiled_schema(option, schema@, r.schema@),
    {
        let json = match option.on {
            Some(DataType::Json) => true,
            _ => false,
        };
        let ghost orig = schema@;
        let mut rest = schema;
        let mut done: Vec<SchemaField> = Vec::new();
        while rest.len() > 0
            invariant
                done@.len() + rest@.len() == orig.len(),
                rest@ == orig.skip(done@.len() as int),
                json == (option.on == Some(DataType::Json)),
                forall|i: int|
                    0 <= i < done@.len() ==> if json {
                        json_step(#[trigger] orig[i], done@[i])
                    } else {
                        done@[i] == orig[i]
                    },
            decreases rest@.len(),
        {
            let mut field = rest.remove(0);
            assert(field == orig[done@.len() as int]);
            if json {
                field.mut_as_default_json_field();
            }
            done.push(field);
            assert(rest@ =~= orig.skip(done@.len() as int));
        }
        FTCreate { name, option, schema: done }
    }

    /// `base` followed by the encoded command.
    pub open spec fn with_args(&self, base: Seq<ArgView>) -> Seq<ArgView> {
        schema_args(self.option.with_args(base.push(text(self.name@))).push(text("SCHEMA"@)), self.schema@)
    }

    /// The encoded command.
    pub open spec fn spec_args(&self) -> Seq<ArgView> {
        self.with_args(Seq::empty())
    }

    /// Appends the encoded command.
    pub fn write_args(&self, out: &mut Vec<Arg>)
        ensures
            args_view(final(out)@) == self.with_args(args_view(old(out)@)),
    {
        push_text(out, self.name.as_str());
        self.option.write_args(out);
        push_text(out, "SCHEMA");
        let ghost base = args_view(out@);
        let mut i: usize = 0;
        while i < self.schema.len()
            invariant
                0 <= i <= self.schema@.len(),
                args_view(out@) == schema_args(base, self.schema@.take(i as int)),
            decreases self.schema@.len() - i,
        {
            self.schema[i].write_args(out);
            assert(self.schema@.take(i + 1).drop_last() =~= self.schema@.take(i as int));
            i = i + 1;
        }
        assert(self.schema@.take(self.schema@.len() as int) =~= self.schema@);
    }

    /// The encoded command as a fresh argument list.
    pub fn to_args(&self) -> (r: Vec<Arg>)
        ensures
            args_view(r@) == self.spec_args(),
    {
        let mut out: Vec<Arg> = Vec::new();
        proof {
            assert(args_view(out@) =~= Seq::<ArgView>::empty());
        }
        self.write_args(&mut out);
        out
    }
}

/// JSON-mode defaulting is idempotent: applied to its own result it
/// changes nothing.
pub proof fn lemma_json_default_idempotent(a: SchemaField, b: SchemaField, c: SchemaField)
    requires
        json_step(a, b),
        json_step(b, c),
    ensures
        c == b,
{
}

} // verus!
