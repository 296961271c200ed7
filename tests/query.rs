use darkforge::descriptor::Descriptor;
use darkforge::param::{Param, Params, SqlQuery};
use darkforge::uuid::Uuid;

fn id() -> Uuid {
    Uuid::parse_str("F9168C5E-FEB2-4FAA-B6BF-329BF39FA1E4").expect("should have parsed uuid")
}

#[test]
fn plain_query_has_no_params() {
    let q = SqlQuery::plain("SELECT * FROM test");
    assert_eq!(
        SqlQuery { query: "SELECT * FROM test".into(), params: Params::Empty },
        q
    );
}

#[test]
fn positional_query_keeps_each_scalar_kind() {
    let cases: Vec<(Param, Param)> = vec![
        (Param::from(0u8), Param::U8(0)),
        (Param::from(1u16), Param::U16(1)),
        (Param::from(2u32), Param::U32(2)),
        (Param::from(3u64), Param::U64(3)),
        (Param::from(4u128), Param::U128(4)),
        (Param::from(5usize), Param::USize(5)),
        (Param::from(-6i8), Param::I8(-6)),
        (Param::from(-7i16), Param::I16(-7)),
        (Param::from(-8i32), Param::I32(-8)),
        (Param::from(-9i64), Param::I64(-9)),
        (Param::from(-10i128), Param::I128(-10)),
        (Param::from(-11isize), Param::ISize(-11)),
        (Param::from_f32_bits(0.42f32.to_bits()), Param::F32(0.42f32.to_bits())),
        (Param::from_f64_bits(0.42f64.to_bits()), Param::F64(0.42f64.to_bits())),
        (Param::from("John Doe".to_string()), Param::String("John Doe".into())),
        (Param::text("John Doe"), Param::String("John Doe".into())),
        (Param::from(id()), Param::Uuid(id())),
        (Param::from(vec![1u8, 2, 3]), Param::Bytes(vec![1, 2, 3])),
    ];
    for (given, expect) in cases {
        let q = SqlQuery::positional("SELECT * FROM test WHERE id = ?", vec![given]);
        assert_eq!(
            SqlQuery {
                query: "SELECT * FROM test WHERE id = ?".into(),
                params: Params::Positional(vec![expect]),
            },
            q
        );
    }
}

#[test]
fn named_query_keeps_each_pair() {
    let q = SqlQuery::named(
        "SELECT * FROM test WHERE id = :key1 AND name = :key3",
        vec![("key1".to_string(), Param::from(0u8)), ("key3".to_string(), Param::text("John Doe"))],
    );
    assert_eq!(
        SqlQuery {
            query: "SELECT * FROM test WHERE id = :key1 AND name = :key3".into(),
            params: Params::Named(vec![
                ("key1".into(), Param::U8(0)),
                ("key3".into(), Param::String("John Doe".into())),
            ]),
        },
        q
    );
}

#[test]
fn query_shapes_with_zero_elements_are_kept() {
    assert_eq!(Params::Positional(vec![]), SqlQuery::positional("SELECT 1", vec![]).params);
    assert_eq!(Params::Named(vec![]), SqlQuery::named("SELECT 1", vec![]).params);
    assert_eq!(Params::Empty, SqlQuery::new("SELECT 1", Params::Empty).params);
    assert_eq!("SELECT 1", SqlQuery::new("SELECT 1", Params::Empty).query);
}

#[test]
fn descriptor_keeps_its_parts() {
    let id = Uuid::parse_str("9f5c2c9e-4f4e-4fbf-8a7f-0a1ecf1a7c12").expect("should have parsed uuid");
    let d = Descriptor::new(
        id,
        "Cunning".to_string(),
        "You are quick-witted and resourceful, often thinking on your feet.".to_string(),
    );
    assert_eq!(id, d.get_id());
    assert_eq!("Cunning", d.get_label());
    assert_eq!("You are quick-witted and resourceful, often thinking on your feet.", d.get_description());
}
