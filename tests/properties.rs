use itertools::Itertools;
use rsrs::{
    i128_text, u128_text, Arg, ConfigError, DataType, DistanceMetric, Error, Expr, FTCreate,
    FTSearch, FTSearchOption, FTSearchParam, FTSearchReturn, Field, GeoField, GeoOption,
    IndexOption, NumberField, NumberOption, PhoneticMatcher, RangeBound, SortBy, SortOrder,
    TagField, TagOption, TextField, TextOption, VectorAlgorithm, VectorDataType, VectorField,
    VectorOption, VectorType,
};

fn render(args: Vec<Arg>) -> String {
    args.into_iter()
        .map(|x| match x {
            Arg::Text(s) => s,
            Arg::Blob(b) => {
                let len = b.len();
                match String::from_utf8(b) {
                    Ok(s) => s,
                    Err(_) => format!("<{}Bytes>", len),
                }
            }
        })
        .join(" ")
}

fn text(name: &str) -> TextField {
    TextOption::default().into_field(name)
}

fn vector(name: &str) -> VectorField {
    VectorOption {
        datatype: Some(VectorDataType::F32),
        algorithm: Some(VectorAlgorithm::FLAT),
        dim: Some(768),
        distance_metric: Some(DistanceMetric::L2),
        ..Default::default()
    }
    .into_field(name)
    .unwrap()
}

fn number(name: &str) -> NumberField {
    NumberOption::default().into_field(name)
}

fn query_of(e: Expr) -> Result<String, Error> {
    e.ft_search("my_index").map(|s| s.query)
}

#[test]
fn two_knn_clauses_fail_under_and_and_or() {
    let v = vector("vector32");
    let a = v.query(&1.0f32.to_ne_bytes(), 3, None);
    let b = v.query(&2.0f32.to_ne_bytes(), 3, Some("other"));
    assert_eq!(query_of(a.and(b)).unwrap_err(), Error::DuplicatedVectorQuery);
    let a = v.query(&1.0f32.to_ne_bytes(), 3, None);
    let b = v.query(&2.0f32.to_ne_bytes(), 3, Some("other"));
    assert_eq!(query_of(a.or(b)).unwrap_err(), Error::DuplicatedVectorQuery);
}

#[test]
fn knn_clauses_nested_deeply_still_collide() {
    let t = text("description");
    let v = vector("vector32");
    let left = t.eq("a").and(v.query(&[0u8; 4], 1, None));
    let right = t.eq("b").or(t.eq("c").and(v.query(&[1u8; 4], 1, Some("x"))));
    assert_eq!(query_of(left.or(right)).unwrap_err(), Error::DuplicatedVectorQuery);
}

#[test]
fn same_param_name_with_two_knn_clauses_reports_the_vector_error() {
    let v = vector("vector32");
    let a = v.query(&1.0f32.to_ne_bytes(), 3, Some("p"));
    let b = v.query(&2.0f32.to_ne_bytes(), 3, Some("p"));
    assert_eq!(query_of(a.and(b)).unwrap_err(), Error::DuplicatedVectorQuery);
}

#[test]
fn or_parenthesizes_and_and_joins_by_space() {
    let t = TagField::new("tags");
    let n = number("price");
    let a = t.contains(&["x", "y"]);
    let b = n.eq("5");
    assert_eq!(query_of(a.or(b)).unwrap(), "(@tags:{ x | y })|(@price:[5 5])");
    let a = t.contains(&["x", "y"]);
    let b = n.eq("5");
    assert_eq!(query_of(a.and(b)).unwrap(), "@tags:{ x | y } @price:[5 5]");
}

#[test]
fn or_of_ands_and_and_of_ors_keep_their_grouping() {
    let t = text("t");
    let and_of_ors = t.eq("a").or(t.eq("b")).and(t.eq("c").or(t.eq("d")));
    assert_eq!(
        query_of(and_of_ors).unwrap(),
        "(@t:{ a })|(@t:{ b }) (@t:{ c })|(@t:{ d })"
    );
    let or_of_ands = t.eq("a").and(t.eq("b")).or(t.eq("c").and(t.eq("d")));
    assert_eq!(
        query_of(or_of_ands).unwrap(),
        "(@t:{ a } @t:{ b })|(@t:{ c } @t:{ d })"
    );
}

#[test]
fn empty_side_is_dropped_unwrapped() {
    let t = text("t");
    let empty = Expr::from_filter(String::new());
    assert_eq!(query_of(empty.or(t.eq("a"))).unwrap(), "@t:{ a }");
    let empty = Expr::from_filter(String::new());
    assert_eq!(query_of(t.eq("a").and(empty)).unwrap(), "@t:{ a }");
}

#[test]
fn number_range_encodings() {
    let n = number("n");
    let v = i128_text(7);
    let closed = |e: Expr| query_of(e).unwrap();
    assert_eq!(
        closed(n.in_range(&RangeBound::Unbounded, &RangeBound::Excluded(v.clone()))),
        "@n:[-inf (7]"
    );
    assert_eq!(
        closed(n.in_range(&RangeBound::Unbounded, &RangeBound::Included(v.clone()))),
        "@n:[-inf 7]"
    );
    assert_eq!(
        closed(n.in_range(
            &RangeBound::Included(i128_text(3)),
            &RangeBound::Excluded(v.clone())
        )),
        "@n:[3 (7]"
    );
    assert_eq!(
        closed(n.in_range(&RangeBound::Excluded(i128_text(3)), &RangeBound::Unbounded)),
        "@n:[(3 +inf]"
    );
    let eq = closed(n.eq(&v));
    let range = closed(n.in_range(
        &RangeBound::Included(v.clone()),
        &RangeBound::Included(v.clone()),
    ));
    assert_eq!(eq, range);
    assert_eq!(eq, "@n:[7 7]");
    assert_eq!(closed(n.ne(&v)), "-@n:[7 7]");
}

#[test]
fn empty_expression_is_empty_query_body() {
    assert_eq!(
        query_of(Expr::from_filter(String::new())).unwrap_err(),
        Error::EmptyQueryBody
    );
    let both_empty = Expr::from_filter(String::new()).and(Expr::from_filter(String::new()));
    assert_eq!(query_of(both_empty).unwrap_err(), Error::EmptyQueryBody);
}

#[test]
fn text_eq_scenario() {
    let s = text("description").eq("aaa").ft_search("my_index").unwrap();
    assert_eq!(s.query, "@description:{ aaa }");
    assert_eq!(s.index, "my_index");
    assert_eq!(render(s.to_args()), "my_index @description:{ aaa }");
}

#[test]
fn vector_query_scenario() {
    let s = vector("vector32")
        .query(&1.0f32.to_ne_bytes(), 3, None)
        .ft_search("my_index")
        .unwrap();
    assert_eq!(s.query, "*=>[KNN 3 @vector32 $vec]");
    let params = s.option.params.as_ref().unwrap();
    assert_eq!(params.len(), 1);
    assert_eq!(params[0].name, "$vec");
    assert_eq!(params[0].value, 1.0f32.to_ne_bytes().to_vec());
}

#[test]
fn text_and_vector_scenario() {
    let s = text("description")
        .eq("aaa")
        .and(vector("vector32").query(&1.0f32.to_ne_bytes(), 3, None))
        .ft_search("my_index")
        .unwrap();
    assert_eq!(s.query, "(@description:{ aaa })=>[KNN 3 @vector32 $vec]");
    let params = s.option.params.as_ref().unwrap();
    assert_eq!(params.len(), 1);
    assert_eq!(params[0].name, "$vec");
    assert_eq!(params[0].value, 1.0f32.to_ne_bytes().to_vec());
}

#[test]
fn json_defaulting_scenario_and_idempotence() {
    let mut field = text("description").to_schema_fields();
    field.mut_as_default_json_field();
    assert_eq!(field.identifier, "$.description");
    assert_eq!(field.attribute.as_deref(), Some("description"));
    field.mut_as_default_json_field();
    assert_eq!(field.identifier, "$.description");
    assert_eq!(field.attribute.as_deref(), Some("description"));
}

#[test]
fn json_index_rewrites_each_unaliased_field_in_order() {
    let mut aliased = number("n").to_schema_fields();
    aliased.attribute = Some("alias".to_string());
    let schema = vec![
        text("a").to_schema_fields(),
        aliased,
        GeoField::new("g").to_schema_fields(),
    ];
    let create = FTCreate::new(
        "idx".to_string(),
        IndexOption {
            on: Some(DataType::Json),
            ..Default::default()
        },
        schema,
    );
    assert_eq!(
        render(create.to_args()),
        "idx ON JSON SCHEMA $.a AS a TEXT n AS alias NUMERIC $.g AS g GEO"
    );
}

#[test]
fn hash_index_keeps_identifiers_and_encodes_index_options() {
    let create = FTCreate::new(
        "idx".to_string(),
        IndexOption {
            on: Some(DataType::Hash),
            prefix: Some(vec!["a:".to_string(), "b:".to_string()]),
            filter: Some("@x==1".to_string()),
            language: Some("english".to_string()),
            score: Some(format!("{}", 0.5f32)),
        },
        vec![TagField::new("t").to_schema_fields()],
    );
    assert_eq!(
        render(create.to_args()),
        "idx ON HASH PREFIX 2 a: b: FILTER @x==1 LANGUAGE english SCORE 0.5 SCHEMA t TAG"
    );
}

#[test]
fn vector_schema_counts_present_tuning_options() {
    let field = VectorOption {
        datatype: Some(VectorDataType::F64),
        algorithm: Some(VectorAlgorithm::HNSW),
        dim: Some(4),
        distance_metric: Some(DistanceMetric::COSINE),
        initial_cap: Some(5),
        m: Some(16),
        ..Default::default()
    }
    .into_field("v")
    .unwrap();
    let schema = field.to_schema_fields();
    assert_eq!(schema.options.count, Some(10));
    let create = FTCreate::new("i".to_string(), IndexOption::default(), vec![schema]);
    assert_eq!(
        render(create.to_args()),
        "i SCHEMA v VECTOR HNSW 10 TYPE FLOAT64 DIM 4 DISTANCE_METRIC COSINE INITIAL_CAP 5 M 16"
    );
}

#[test]
fn vector_schema_with_every_tuning_option() {
    let field = VectorField {
        field_name: "v".to_string(),
        vector_type: VectorType::Float32,
        dim: 2,
        algorithm: VectorAlgorithm::FLAT,
        distance_metric: DistanceMetric::IP,
        initial_cap: Some(1),
        block_size: Some(2),
        m: Some(3),
        ef_construction: Some(4),
        ef_runtime: Some(5),
        epsilon: Some(6),
    };
    let create = FTCreate::new("i".to_string(), IndexOption::default(), vec![field.to_schema_fields()]);
    assert_eq!(
        render(create.to_args()),
        "i SCHEMA v VECTOR FLAT 18 TYPE FLOAT32 DIM 2 DISTANCE_METRIC IP INITIAL_CAP 1 BLOCK_SIZE 2 M 3 EF_CONSTRUCTION 4 EF_RUNTIME 5 EPSILON 6"
    );
}

#[test]
fn text_schema_options_in_protocol_order() {
    let field = TextOption {
        weight: Some(format!("{}", 2.5f32)),
        no_stem: Some(true),
        phonetic: Some(PhoneticMatcher::DMFR),
        sortable: Some(false),
        no_index: None,
        with_suffix_trie: Some(true),
    }
    .into_field("body");
    let create = FTCreate::new("i".to_string(), IndexOption::default(), vec![field.to_schema_fields()]);
    assert_eq!(
        render(create.to_args()),
        "i SCHEMA body TEXT NOSTEM PHONETIC dm:fr WEIGHT 2.5"
    );
}

#[test]
fn tag_and_geo_schema_options() {
    let tag = TagOption {
        separator: Some(",".to_string()),
        case_sensitive: Some(true),
    }
    .into_field("t");
    let geo = GeoOption {
        sortable: Some(true),
        no_index: Some(true),
    }
    .into_field("g");
    let number = NumberOption {
        sortable: None,
        unf: Some(true),
        no_index: None,
    }
    .into_field("n");
    assert_eq!(number.to_schema_fields().options.sortable, Some(false));
    let create = FTCreate::new(
        "i".to_string(),
        IndexOption::default(),
        vec![tag.to_schema_fields(), geo.to_schema_fields(), number.to_schema_fields()],
    );
    assert_eq!(
        render(create.to_args()),
        "i SCHEMA t TAG SEPARATOR , CASESENSITIVE g GEO SORTABLE NOINDEX n NUMERIC UNF"
    );
}

#[test]
fn vector_option_requires_each_mandatory_setting() {
    let full = || VectorOption {
        datatype: Some(VectorDataType::F32),
        algorithm: Some(VectorAlgorithm::FLAT),
        dim: Some(3),
        distance_metric: Some(DistanceMetric::L2),
        ..Default::default()
    };
    assert!(full().into_field("v").is_ok());
    let mut o = full();
    o.algorithm = None;
    o.datatype = None;
    assert_eq!(o.into_field("v").unwrap_err(), ConfigError::MissingAlgorithm);
    let mut o = full();
    o.datatype = None;
    assert_eq!(o.into_field("v").unwrap_err(), ConfigError::MissingDataType);
    let mut o = full();
    o.distance_metric = None;
    assert_eq!(o.into_field("v").unwrap_err(), ConfigError::MissingDistanceMetric);
    let mut o = full();
    o.dim = None;
    assert_eq!(o.into_field("v").unwrap_err(), ConfigError::MissingDim);
}

#[test]
fn geo_query_binds_no_parameter() {
    let s = GeoField::new("loc")
        .query(&format!("{}", 1.5f32), &format!("{}", -2.25f32), 10, "km")
        .ft_search("i")
        .unwrap();
    assert_eq!(s.query, "@loc:[1.5 -2.25 10 km]");
    assert_eq!(render(s.to_args()), "i @loc:[1.5 -2.25 10 km]");
}

#[test]
fn empty_membership_list_and_not_contains() {
    let t = text("t");
    assert_eq!(query_of(t.contains(&[])).unwrap(), "@t:{  }");
    assert_eq!(query_of(t.not_contains(&["a"])).unwrap(), "-@t:{ a }");
}

#[test]
fn error_is_sticky_and_left_wins() {
    let v = vector("v");
    let t = text("t");
    let failed = v.query(&[0u8; 4], 1, None).and(v.query(&[0u8; 4], 1, Some("b")));
    let combined = t.eq("x").or(failed.dialect(2)).and(t.eq("y"));
    assert_eq!(query_of(combined).unwrap_err(), Error::DuplicatedVectorQuery);
    let failed = v.query(&[0u8; 4], 1, None).or(v.query(&[0u8; 4], 1, Some("b")));
    assert_eq!(query_of(failed.and(Expr::from_filter(String::new()))).unwrap_err(), Error::DuplicatedVectorQuery);
}

#[test]
fn dialect_and_sort_are_not_carried_through_composition() {
    let t = text("t");
    let with_dialect = t.eq("a").dialect(3).sort_by(text("t"), SortOrder::DESC);
    let s = with_dialect.ft_search("i").unwrap();
    assert_eq!(render(s.to_args()), "i @t:{ a } DIALECT 3");
    let composed = t.eq("a").dialect(3).and(t.eq("b"));
    assert_eq!(render(composed.ft_search("i").unwrap().to_args()), "i @t:{ a } @t:{ b }");
    let outer = t.eq("a").and(t.eq("b")).dialect(2);
    assert_eq!(render(outer.ft_search("i").unwrap().to_args()), "i @t:{ a } @t:{ b } DIALECT 2");
}

#[test]
fn parameters_of_both_sides_are_kept() {
    let v = vector("v");
    let s = text("t")
        .eq("a")
        .or(v.query(&[1u8, 2, 3], 5, Some("q")))
        .ft_search("i")
        .unwrap();
    assert_eq!(s.query, "(@t:{ a })=>[KNN 5 @v $q]");
    let params = s.option.params.unwrap();
    assert_eq!(params.len(), 1);
    assert_eq!(params[0].value, vec![1u8, 2, 3]);
}

#[test]
fn search_options_in_protocol_order() {
    let s = FTSearch {
        query: "q".to_string(),
        index: "i".to_string(),
        option: FTSearchOption {
            returns: Some(vec![
                FTSearchReturn {
                    identifier: "a".to_string(),
                    property: "x".to_string(),
                },
                FTSearchReturn {
                    identifier: "b".to_string(),
                    property: "y".to_string(),
                },
            ]),
            params: Some(vec![
                FTSearchParam {
                    name: "$p".to_string(),
                    value: b"one".to_vec(),
                },
                FTSearchParam {
                    name: "$r".to_string(),
                    value: vec![0xff],
                },
            ]),
            sortby: Some(SortBy {
                attribute: "a".to_string(),
                asc: false,
                with_count: Some(5),
            }),
            dialect: Some(3),
        },
    };
    assert_eq!(
        render(s.to_args()),
        "i q RETURN 2 a b PARAMS 4 $p one $r <1Bytes> SORTBY a DESC 5 DIALECT 3"
    );
}

#[test]
fn empty_params_section_is_omitted() {
    let s = FTSearch {
        query: "q".to_string(),
        index: "i".to_string(),
        option: FTSearchOption {
            returns: None,
            params: Some(vec![]),
            sortby: Some(SortBy {
                attribute: "a".to_string(),
                asc: true,
                with_count: None,
            }),
            dialect: None,
        },
    };
    assert_eq!(render(s.to_args()), "i q SORTBY a ASC");
}

#[test]
fn decimal_text_of_extreme_integers() {
    assert_eq!(u128_text(0), "0");
    assert_eq!(u128_text(u128::MAX), u128::MAX.to_string());
    assert_eq!(i128_text(i128::MIN), i128::MIN.to_string());
    assert_eq!(i128_text(-1), "-1");
    assert_eq!(i128_text(1234567890), "1234567890");
}

#[test]
fn field_names_and_enum_codes() {
    assert_eq!(text("abc").field_name(), "abc");
    assert_eq!(GeoField::new("g").field_name(), "g");
    assert_eq!(PhoneticMatcher::DMEN.as_str(), "dm:en");
    assert_eq!(PhoneticMatcher::DMPT.as_str(), "dm:pt");
    assert_eq!(PhoneticMatcher::DMES.as_str(), "dm:es");
    assert_eq!(DataType::Hash.as_str(), "HASH");
    assert_eq!(DataType::Json.as_str(), "JSON");
    assert_eq!(Error::DuplicatedParam.message(), "duplicated param");
    assert_eq!(Error::EmptyQueryBody.message(), "empty query body");
}
