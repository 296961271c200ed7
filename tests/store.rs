use darkforge::param::{Param, SqlQuery};
use darkforge::uuid::Uuid;
use darkforge::value::{BoundParams, FloatBits, SqlValue};

fn native(v: SqlValue) -> libsql::Value {
    match v {
        SqlValue::Null => libsql::Value::Null,
        SqlValue::Integer(i) => libsql::Value::Integer(i),
        SqlValue::Real(FloatBits::Single(b)) => libsql::Value::Real(f64::from(f32::from_bits(b))),
        SqlValue::Real(FloatBits::Double(b)) => libsql::Value::Real(f64::from_bits(b)),
        SqlValue::Text(s) => libsql::Value::Text(s),
        SqlValue::Blob(b) => libsql::Value::Blob(b),
    }
}

fn bound(q: &SqlQuery) -> libsql::params::Params {
    match q.to_params().expect("should have bound params") {
        BoundParams::Empty => libsql::params::Params::None,
        BoundParams::Positional(vs) => libsql::params::Params::Positional(vs.into_iter().map(native).collect()),
        BoundParams::Named(kvs) => libsql::params::Params::Named(kvs.into_iter().map(|(k, v)| (k, native(v))).collect()),
    }
}

async fn rows_of(conn: &libsql::Connection, q: &SqlQuery) -> Vec<(String, i32)> {
    let mut rows = conn.query(q.query.as_str(), bound(q)).await.expect("should have run query");
    let mut out = Vec::new();
    while let Some(row) = rows.next().await.expect("should have read row") {
        out.push((row.get::<String>(0).expect("name"), row.get::<i32>(1).expect("age")));
    }
    out
}

async fn prepare(id: Uuid) -> libsql::Connection {
    let db = libsql::Builder::new_local(":memory:").build().await.expect("should have created memory db");
    let conn = db.connect().expect("should have connected");
    let setup = [
        SqlQuery::plain(
            "CREATE TABLE test (
                id   BLOB NOT NULL,
                name TEXT NOT NULL,
                age  INTEGER NOT NULL,
                CONSTRAINT prefabs_pk PRIMARY KEY (id)
            );",
        ),
        SqlQuery::positional("INSERT INTO test (id, name, age) VALUES (?, 'John Doe', 42);", vec![Param::Uuid(id)]),
    ];
    for q in setup.iter() {
        conn.execute(q.query.as_str(), bound(q)).await.expect("should have initialised database");
    }
    conn
}

fn block_on<F: std::future::Future>(f: F) -> F::Output {
    tokio::runtime::Builder::new_current_thread().build().expect("should have built runtime").block_on(f)
}

#[test]
fn should_get_record_by_id() {
    let id = Uuid::parse_str("f4f77f73-e1e8-4289-b77f-73e1e86289e0").expect("should have parsed uuid");
    let actual = block_on(async {
        let conn = prepare(id).await;
        rows_of(&conn, &SqlQuery::positional("SELECT name, age FROM test WHERE id = ?", vec![Param::from(id)])).await
    });
    assert_eq!(vec![("John Doe".to_string(), 42)], actual);
}

#[test]
fn positional_text_param_finds_its_row() {
    let id = Uuid::from_u128(7);
    let actual = block_on(async {
        let conn = prepare(id).await;
        rows_of(&conn, &SqlQuery::positional("SELECT name, age FROM test WHERE name = ?", vec![Param::text("John Doe")])).await
    });
    assert_eq!(vec![("John Doe".to_string(), 42)], actual);
}

#[test]
fn named_uuid_param_finds_its_row() {
    let id = Uuid::parse_str("9f5c2c9e-4f4e-4fbf-8a7f-0a1ecf1a7c12").expect("should have parsed uuid");
    let other = Uuid::zero();
    let (found, missing) = block_on(async {
        let conn = prepare(id).await;
        let q = |u: Uuid| SqlQuery::named("SELECT name, age FROM test WHERE id = :id", vec![(":id".to_string(), Param::Uuid(u))]);
        (rows_of(&conn, &q(id)).await, rows_of(&conn, &q(other)).await)
    });
    assert_eq!(1, found.len());
    assert!(missing.is_empty());
}
