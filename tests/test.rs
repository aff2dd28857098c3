use itertools::Itertools;
use rsrs::{
    i128_text, Arg, DataType, DistanceMetric, Field, IndexOption, NumberField, RangeBound,
    TextField, VectorAlgorithm, VectorField, VectorType,
};
use rsrs::Document;
use rsrs::FTCreate;
use rsrs::SchemaField;

struct Demo {
    description: TextField,
    vector32: VectorField,
    vector64: VectorField,
    a1: NumberField,
    a14: NumberField,
    numbers: Vec<NumberField>,
}

fn number(name: &str, sortable: bool, no_index: bool) -> NumberField {
    NumberField {
        field_name: name.to_string(),
        sortable,
        unf: false,
        no_index,
    }
}

fn vector(name: &str) -> VectorField {
    VectorField {
        field_name: name.to_string(),
        vector_type: VectorType::Float32,
        dim: 768,
        algorithm: VectorAlgorithm::FLAT,
        distance_metric: DistanceMetric::L2,
        initial_cap: None,
        block_size: None,
        m: None,
        ef_construction: None,
        ef_runtime: None,
        epsilon: None,
    }
}

fn op() -> Demo {
    let mut numbers = vec![];
    for i in 1..=14 {
        let name = format!("a{}", i);
        numbers.push(number(&name, i == 12, i == 11));
    }
    Demo {
        description: TextField {
            field_name: "description".to_string(),
            weight: None,
            no_stem: None,
            phonetic: None,
            sortable: Some(true),
            no_index: Some(true),
            with_suffix_trie: None,
        },
        vector32: vector("vector32"),
        vector64: vector("vector64"),
        a1: number("a1", false, false),
        a14: number("a14", false, false),
        numbers,
    }
}

impl Demo {
    fn schema(&self) -> Vec<SchemaField> {
        let mut schema = vec![
            self.description.to_schema_fields(),
            self.vector32.to_schema_fields(),
            self.vector64.to_schema_fields(),
        ];
        for n in &self.numbers {
            schema.push(n.to_schema_fields());
        }
        schema
    }

}

impl Document for Demo {
    type Operator = Demo;

    fn op() -> Demo {
        op()
    }

    fn create_index(index: &str, option: IndexOption) -> FTCreate {
        FTCreate::new(index.to_string(), option, op().schema())
    }
}

fn to_redis_string(args: Vec<Arg>) -> String {
    args.into_iter()
        .map(|x| match x {
            Arg::Text(s) => s,
            Arg::Blob(b) => {
                let len = b.len();
                match String::from_utf8(b) {
                    Ok(s) => s,
                    Err(_) => format!("<{}Bytes>", len),
                }
            }
        })
        .join(" ")
}

fn f32_bytes(v: &[f32]) -> Vec<u8> {
    v.iter().flat_map(|x| x.to_ne_bytes()).collect()
}

fn num(x: f64) -> String {
    format!("{}", x)
}

fn incl(x: String) -> RangeBound {
    RangeBound::Included(x)
}

fn excl(x: String) -> RangeBound {
    RangeBound::Excluded(x)
}

#[test]
fn test_create() {
    let ftcreate = Demo::create_index(
        "my_index",
        IndexOption {
            on: Some(DataType::Json),
            ..Default::default()
        },
    );
    assert_eq!(to_redis_string(ftcreate.to_args()).as_str(), "my_index ON JSON SCHEMA $.description AS description TEXT SORTABLE NOINDEX $.vector32 AS vector32 VECTOR FLAT 6 TYPE FLOAT32 DIM 768 DISTANCE_METRIC L2 $.vector64 AS vector64 VECTOR FLAT 6 TYPE FLOAT32 DIM 768 DISTANCE_METRIC L2 $.a1 AS a1 NUMERIC $.a2 AS a2 NUMERIC $.a3 AS a3 NUMERIC $.a4 AS a4 NUMERIC $.a5 AS a5 NUMERIC $.a6 AS a6 NUMERIC $.a7 AS a7 NUMERIC $.a8 AS a8 NUMERIC $.a9 AS a9 NUMERIC $.a10 AS a10 NUMERIC $.a11 AS a11 NUMERIC NOINDEX $.a12 AS a12 NUMERIC SORTABLE $.a13 AS a13 NUMERIC $.a14 AS a14 NUMERIC");
}

#[test]
fn test_numeric_query() {
    let op = op();
    let search = |e: rsrs::Expr| to_redis_string(e.ft_search("my_index").unwrap().to_args());
    assert_eq!(search(op.a14.eq(&num(1.5))).as_str(), "my_index @a14:[1.5 1.5]");
    assert_eq!(search(op.a14.ne(&num(1.5))).as_str(), "my_index -@a14:[1.5 1.5]");
    assert_eq!(
        search(op.a14.in_range(&incl(num(1.5)), &RangeBound::Unbounded)).as_str(),
        "my_index @a14:[1.5 +inf]"
    );
    assert_eq!(
        search(op.a14.in_range(&incl(num(1.5)), &RangeBound::Unbounded)).as_str(),
        "my_index @a14:[1.5 +inf]"
    );
    assert_eq!(
        search(op.a14.in_range(&RangeBound::Unbounded, &excl(num(1.5)))).as_str(),
        "my_index @a14:[-inf (1.5]"
    );
    assert_eq!(
        search(op.a14.in_range(&RangeBound::Unbounded, &incl(num(1.5)))).as_str(),
        "my_index @a14:[-inf 1.5]"
    );
    assert_eq!(
        search(op.a14.in_range(&incl(num(1.)), &incl(num(1.5)))).as_str(),
        "my_index @a14:[1 1.5]"
    );
    assert_eq!(
        search(op.a14.in_range(&incl(num(1.)), &excl(num(1.5)))).as_str(),
        "my_index @a14:[1 (1.5]"
    );

    assert_eq!(search(op.a1.eq(&i128_text(1))).as_str(), "my_index @a1:[1 1]");
    assert_eq!(search(op.a1.ne(&i128_text(1))).as_str(), "my_index -@a1:[1 1]");
    assert_eq!(
        search(op.a1.in_range(&incl(i128_text(1)), &RangeBound::Unbounded)).as_str(),
        "my_index @a1:[1 +inf]"
    );
    assert_eq!(
        search(op.a1.in_range(&RangeBound::Unbounded, &excl(i128_text(1)))).as_str(),
        "my_index @a1:[-inf (1]"
    );
    assert_eq!(
        search(op.a1.in_range(&RangeBound::Unbounded, &excl(i128_text(1)))).as_str(),
        "my_index @a1:[-inf (1]"
    );
    assert_eq!(
        search(op.a1.in_range(&RangeBound::Unbounded, &incl(i128_text(1)))).as_str(),
        "my_index @a1:[-inf 1]"
    );
    assert_eq!(
        search(op.a1.in_range(&incl(i128_text(-1)), &incl(i128_text(1)))).as_str(),
        "my_index @a1:[-1 1]"
    );
    assert_eq!(
        search(op.a1.in_range(&incl(i128_text(-1)), &excl(i128_text(1)))).as_str(),
        "my_index @a1:[-1 (1]"
    );
}

#[test]
fn test_vector_query() {
    let op = op();
    assert_eq!(
        to_redis_string(
            op.vector32
                .query(&f32_bytes(&[1.]), 3, None)
                .ft_search("my_index")
                .unwrap()
                .to_args()
        )
        .as_str(),
        "my_index *=>[KNN 3 @vector32 $vec] PARAMS 2 $vec <4Bytes>"
    );

    assert_eq!(
        to_redis_string(
            op.vector32
                .query(&f32_bytes(&[1.]), 3, Some("blob"))
                .ft_search("my_index")
                .unwrap()
                .to_args()
        )
        .as_str(),
        "my_index *=>[KNN 3 @vector32 $blob] PARAMS 2 $blob <4Bytes>"
    );

    assert_eq!(
        to_redis_string(
            op.vector32
                .query(&f32_bytes(&[1., 1.]), 3, None)
                .ft_search("my_index")
                .unwrap()
                .to_args()
        )
        .as_str(),
        "my_index *=>[KNN 3 @vector32 $vec] PARAMS 2 $vec <8Bytes>"
    );

    assert_eq!(
        to_redis_string(
            op.vector32
                .query(&f32_bytes(&[1., 1.]), 3, Some("ok"))
                .dialect(2)
                .ft_search("my_index")
                .unwrap()
                .to_args()
        )
        .as_str(),
        "my_index *=>[KNN 3 @vector32 $ok] PARAMS 2 $ok <8Bytes> DIALECT 2"
    );

    assert_eq!(
        to_redis_string(
            op.vector64
                .query(&f32_bytes(&[1.]), 3, None)
                .dialect(2)
                .ft_search("my_index")
                .unwrap()
                .to_args()
        )
        .as_str(),
        "my_index *=>[KNN 3 @vector64 $vec] PARAMS 2 $vec <4Bytes> DIALECT 2"
    );

    assert_eq!(
        to_redis_string(
            op.vector64
                .query(&f32_bytes(&[1., 2.]), 3, None)
                .ft_search("my_index")
                .unwrap()
                .to_args()
        )
        .as_str(),
        "my_index *=>[KNN 3 @vector64 $vec] PARAMS 2 $vec <8Bytes>"
    );

    assert_eq!(
        op.vector32
            .query(&f32_bytes(&[1.]), 3, None)
            .and(op.vector32.query(&f32_bytes(&[2.]), 3, None))
            .ft_search("my_index")
            .is_err(),
        true
    );
}

#[test]
fn test_text_query() {
    let op = op();
    assert_eq!(
        to_redis_string(op.description.eq("aaa").ft_search("my_index").unwrap().to_args()).as_str(),
        "my_index @description:{ aaa }"
    );
    assert_eq!(
        to_redis_string(
            op.description
                .contains(&["aaa", "bbb", "ccc"])
                .ft_search("my_index")
                .unwrap()
                .to_args()
        )
        .as_str(),
        "my_index @description:{ aaa | bbb | ccc }"
    );
    assert_eq!(
        to_redis_string(
            op.description
                .not_contains(&["aaa", "bbb", "ccc"])
                .ft_search("my_index")
                .unwrap()
                .to_args()
        )
        .as_str(),
        "my_index -@description:{ aaa | bbb | ccc }"
    );
}

#[test]
fn test_query() {
    let op = op();

    assert_eq!(
        to_redis_string(
            op.description
                .eq("aaa")
                .and(op.description.eq("bbb"))
                .ft_search("my_index")
                .unwrap()
                .to_args()
        )
        .as_str(),
        "my_index @description:{ aaa } @description:{ bbb }"
    );

    assert_eq!(
        to_redis_string(
            op.description
                .eq("aaa")
                .and(op.vector32.query(&f32_bytes(&[1.]), 3, None))
                .ft_search("my_index")
                .unwrap()
                .to_args()
        )
        .as_str(),
        "my_index (@description:{ aaa })=>[KNN 3 @vector32 $vec] PARAMS 2 $vec <4Bytes>"
    );

    assert_eq!(
        to_redis_string(
            op.description
                .eq("aaa")
                .and(op.description.eq("bbb").or(op.description.eq("ccc")))
                .ft_search("my_index")
                .unwrap()
                .to_args()
        )
        .as_str(),
        "my_index @description:{ aaa } (@description:{ bbb })|(@description:{ ccc })"
    );

    assert_eq!(
        to_redis_string(
            op.a1
                .in_range(&RangeBound::Unbounded, &excl(i128_text(10)))
                .or(op.a1.in_range(&incl(i128_text(20)), &RangeBound::Unbounded))
                .ft_search("my_index")
                .unwrap()
                .to_args()
        )
        .as_str(),
        "my_index (@a1:[-inf (10])|(@a1:[20 +inf])"
    );
}
