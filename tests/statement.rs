use rs_sqlite::db::{CloseStep, Lookup, Removal, SQLite, Setup, SQLITE_OPEN_CREATE, SQLITE_OPEN_READONLY, SQLITE_OPEN_READWRITE};
use rs_sqlite::hash::hash;
use rs_sqlite::stmt::{
    bind_at_index, decode_row, is_full_row, step_signal, BindCall, Column, Phase, Statement, StepSignal, SQLITE_DONE, SQLITE_OK,
    SQLITE_ROW,
};
use rs_sqlite::store::Store;
use rs_sqlite::types::{DbError, Row, Type};
use rs_sqlite::value::{FloatBits, NullValue, Value};

const SQLITE_ERROR: i32 = 1;
const SQLITE_RANGE: i32 = 25;
const SQLITE_CANTOPEN: i32 = 14;
const SQLITE_BUSY: i32 = 5;

fn col(name: &str, kind: Type, value: Value) -> Column {
    Column { name: name.to_string(), kind, value }
}

/// Binds the whole store, the engine accepting every call; returns the calls.
fn bind_all(st: &mut Statement, store: Store) -> Vec<BindCall> {
    let mut calls = Vec::new();
    let mut next = st.bind(store);
    while let Some(call) = next {
        calls.push(call);
        next = st.bind_result(SQLITE_OK);
    }
    calls
}

#[test]
fn step_codes_map_to_signals() {
    assert_eq!(step_signal(SQLITE_ROW), StepSignal::Row);
    assert_eq!(step_signal(SQLITE_DONE), StepSignal::Done);
    assert_eq!(step_signal(SQLITE_BUSY), StepSignal::Error(SQLITE_BUSY));
    assert_eq!(step_signal(SQLITE_OK), StepSignal::Error(SQLITE_OK));
}

#[test]
fn bind_call_per_variant() {
    assert_eq!(bind_at_index(1, &Value::Null), BindCall::Null { index: 1 });
    assert_eq!(bind_at_index(2, &Value::Int(-4)), BindCall::Int64 { index: 2, value: -4 });
    assert_eq!(bind_at_index(3, &Value::Float(9)), BindCall::Double { index: 3, bits: 9 });
    assert_eq!(
        bind_at_index(4, &Value::Text("x".to_string())),
        BindCall::Text { index: 4, text: "x".to_string() }
    );
    assert_eq!(bind_at_index(5, &Value::Blob(vec![7])), BindCall::Blob { index: 5, data: vec![7] });
}

#[test]
fn binding_keeps_store_order() {
    let mut st = Statement::for_query(SQLITE_OK, 0).ok().unwrap();
    let calls = bind_all(&mut st, Store::new().add("a").add(2i64).add(NullValue));
    assert_eq!(
        calls,
        vec![
            BindCall::Text { index: 1, text: "a".to_string() },
            BindCall::Int64 { index: 2, value: 2 },
            BindCall::Null { index: 3 },
        ]
    );
    assert_eq!(st.phase(), Phase::Bound);
}

#[test]
fn empty_store_binds_nothing() {
    let mut st = Statement::for_query(SQLITE_OK, 1).ok().unwrap();
    assert!(st.bind(Store::new()).is_none());
    assert_eq!(st.phase(), Phase::Bound);
}

#[test]
fn binding_stops_at_first_refusal() {
    let mut st = Statement::for_query(SQLITE_OK, 0).ok().unwrap();
    let first = st.bind(Store::new().add(1i64).add(2i64).add(3i64));
    assert_eq!(first, Some(BindCall::Int64 { index: 1, value: 1 }));
    assert_eq!(st.bind_result(SQLITE_OK), Some(BindCall::Int64 { index: 2, value: 2 }));
    assert_eq!(st.bind_result(SQLITE_RANGE), None);
    assert_eq!(st.phase(), Phase::Failed(DbError::Bind { index: 2, code: SQLITE_RANGE }));
    assert!(!st.ready_to_step());
    assert!(st.finished());
    assert_eq!(st.fetch_result().err(), Some(DbError::Bind { index: 2, code: SQLITE_RANGE }));
}

#[test]
fn prepare_failure_is_reported() {
    assert_eq!(Statement::for_query(SQLITE_ERROR, 0).err(), Some(DbError::Prepare(SQLITE_ERROR)));
}

#[test]
fn step_error_is_a_failure() {
    let mut st = Statement::for_query(SQLITE_OK, 1).ok().unwrap();
    bind_all(&mut st, Store::new());
    assert_eq!(st.step(SQLITE_BUSY), StepSignal::Error(SQLITE_BUSY));
    assert_eq!(st.phase(), Phase::Failed(DbError::Step(SQLITE_BUSY)));
    assert!(!SQLite::exec_query(&st));
}

#[test]
fn null_column_is_absent_but_null_value_is_present() {
    let row = decode_row(&vec![
        col("a", Type::Null, Value::Null),
        col("b", Type::Int64, Value::Int(1)),
    ]);
    assert_eq!(row.len(), 2);
    assert_eq!(row.get("a"), Some(&None));
    assert_eq!(row.get("b"), Some(&Some(Value::Int(1))));
    assert_eq!(row.get("d"), None);
    let mut explicit = Row::new();
    explicit.insert("c".to_string(), Some(Value::Null));
    assert_eq!(explicit.get("c"), Some(&Some(Value::Null)));
    assert_ne!(explicit.get("c"), row.get("a"));
}

#[test]
fn later_column_of_same_name_wins() {
    let row = decode_row(&vec![col("x", Type::Int64, Value::Int(1)), col("x", Type::Int64, Value::Int(2))]);
    assert_eq!(row.len(), 1);
    assert_eq!(row.get("x"), Some(&Some(Value::Int(2))));
    let mut r = Row::new();
    assert!(r.is_empty());
    r.insert("k".to_string(), None);
    assert_eq!(r.get("k"), Some(&None));
}

#[test]
fn zero_rows_is_an_empty_sequence_for_the_statement() {
    let mut st = Statement::for_query(SQLITE_OK, 2).ok().unwrap();
    bind_all(&mut st, Store::new().add(5i64));
    assert_eq!(st.step(SQLITE_DONE), StepSignal::Done);
    let rows = st.fetch_result().ok().unwrap();
    assert!(rows.is_empty());
    assert!(SQLite::select(Ok(rows)).is_none());
}

#[test]
fn select_counts_matches() {
    let mut st = Statement::for_query(SQLITE_OK, 1).ok().unwrap();
    bind_all(&mut st, Store::new());
    for i in 0..3i64 {
        assert_eq!(st.step(SQLITE_ROW), StepSignal::Row);
        st.fetch_row(vec![col("n", Type::Int64, Value::Int(i))]);
    }
    assert_eq!(st.step(SQLITE_DONE), StepSignal::Done);
    let rows = SQLite::select(st.fetch_result()).unwrap();
    assert_eq!(rows.len(), 3);
    assert_eq!(rows[2].get("n"), Some(&Some(Value::Int(2))));
    assert!(SQLite::select(Err(DbError::Step(SQLITE_BUSY))).is_none());
}

#[test]
fn reset_then_rebind_uses_new_values() {
    let mut st = Statement::for_query(SQLITE_OK, 0).ok().unwrap();
    bind_all(&mut st, Store::new().add(1i64).add("old"));
    assert_eq!(st.step(SQLITE_DONE), StepSignal::Done);
    assert!(SQLite::exec_query(&st));
    assert!(st.reset(SQLITE_OK, SQLITE_OK));
    assert_eq!(st.phase(), Phase::Prepared);
    let calls = bind_all(&mut st, Store::new().add(2i64));
    assert_eq!(calls, vec![BindCall::Int64 { index: 1, value: 2 }]);
    assert_eq!(st.phase(), Phase::Bound);
    assert_eq!(st.step(SQLITE_DONE), StepSignal::Done);
    assert!(SQLite::exec_query(&st));
}

#[test]
fn finalized_statement_asks_for_nothing() {
    let mut st = Statement::for_stmt(1);
    st.finalize();
    assert!(st.bind(Store::new().add(1i64)).is_none());
    st.reset(SQLITE_OK, SQLITE_OK);
    assert_eq!(st.phase(), Phase::Finalized);
    assert!(!st.ready_to_step());
}

#[test]
fn insert_and_select_scenario() {
    let db = SQLite::new().in_memory();
    let plan = db.create().ok().unwrap();
    assert!(!plan.remove_file);
    assert_eq!(plan.open.path, ":memory:");
    assert_eq!(plan.open.flags, SQLITE_OPEN_READWRITE | SQLITE_OPEN_CREATE);
    let mut db = db;
    assert_eq!(db.opened(SQLITE_OK), Ok(()));
    assert_eq!(SQLite::exec(SQLITE_OK), Ok(()));

    // INSERT INTO person (first_name, age, cof, data) VALUES (?,?,?,?)
    assert_eq!(db.stmt_for_query("INSERT"), Ok(Lookup::Prepare(None)));
    let mut ins = Statement::for_query(SQLITE_OK, 0).ok().unwrap();
    let store = Store::with_capacity(4)
        .add("Ahsoka")
        .add(102i32)
        .add(FloatBits(3.1415f64.to_bits()))
        .add(vec![1u8, 2, 255, 5, 170]);
    let calls = bind_all(&mut ins, store);
    assert_eq!(
        calls,
        vec![
            BindCall::Text { index: 1, text: "Ahsoka".to_string() },
            BindCall::Int64 { index: 2, value: 102 },
            BindCall::Double { index: 3, bits: 3.1415f64.to_bits() },
            BindCall::Blob { index: 4, data: vec![1, 2, 255, 5, 170] },
        ]
    );
    ins.step(SQLITE_DONE);
    assert_eq!(SQLite::insert(SQLite::exec_query(&ins), 1), Some(1));

    // SELECT * FROM person WHERE id=?
    let mut sel = Statement::for_query(SQLITE_OK, 5).ok().unwrap();
    assert_eq!(bind_all(&mut sel, Store::new().add(1i64)), vec![BindCall::Int64 { index: 1, value: 1 }]);
    assert_eq!(sel.step(SQLITE_ROW), StepSignal::Row);
    sel.fetch_row(vec![
        col("id", Type::Int64, Value::Int(1)),
        col("first_name", Type::Text, Value::Text("Ahsoka".to_string())),
        col("age", Type::Int64, Value::Int(102)),
        col("cof", Type::Float64, Value::Float(3.1415f64.to_bits())),
        col("data", Type::Blob, Value::Blob(vec![1, 2, 255, 5, 170])),
    ]);
    assert_eq!(sel.step(SQLITE_DONE), StepSignal::Done);
    let rows = SQLite::select(sel.fetch_result()).unwrap();
    assert_eq!(rows.len(), 1);
    let row = &rows[0];
    let entry = |name: &str| row.get(name).unwrap().as_ref().unwrap();
    assert_eq!(entry("id").to_i64(), Ok(1));
    assert_eq!(entry("first_name").to_text(), Ok("Ahsoka".to_string()));
    assert_eq!(entry("age").to_i64(), Ok(102));
    let cof = f64::from_bits(entry("cof").to_f64_bits().unwrap());
    assert!((cof - 3.1415).abs() < 1e-12);
    assert_eq!(entry("data").to_blob(), Ok(vec![1, 2, 255, 5, 170]));
}

#[test]
fn update_scenario() {
    // UPDATE person SET first_name=?, data=? WHERE id=?
    let mut up = Statement::for_query(SQLITE_OK, 0).ok().unwrap();
    let calls = bind_all(&mut up, Store::new().add("Luke").add(vec![4u8, 5, 6]).add(1i64));
    assert_eq!(
        calls,
        vec![
            BindCall::Text { index: 1, text: "Luke".to_string() },
            BindCall::Blob { index: 2, data: vec![4, 5, 6] },
            BindCall::Int64 { index: 3, value: 1 },
        ]
    );
    up.step(SQLITE_DONE);
    assert!(SQLite::update(&up));
    let mut sel = Statement::for_query(SQLITE_OK, 3).ok().unwrap();
    bind_all(&mut sel, Store::new().add(1i64));
    sel.step(SQLITE_ROW);
    sel.fetch_row(vec![
        col("id", Type::Int64, Value::Int(1)),
        col("first_name", Type::Text, Value::Text("Luke".to_string())),
        col("data", Type::Blob, Value::Blob(vec![4, 5, 6])),
    ]);
    sel.step(SQLITE_DONE);
    let rows = SQLite::select(sel.fetch_result()).unwrap();
    assert_eq!(rows[0].get("id"), Some(&Some(Value::Int(1))));
    assert_eq!(rows[0].get("first_name"), Some(&Some(Value::Text("Luke".to_string()))));
    assert_eq!(rows[0].get("data"), Some(&Some(Value::Blob(vec![4, 5, 6]))));
}

#[test]
fn readonly_open_of_missing_file_fails() {
    let mut db = SQLite::new().file("/nonexistent/dir/missing.db");
    let req = db.open(true).ok().unwrap();
    assert_eq!(req.flags, SQLITE_OPEN_READONLY);
    assert_eq!(req.flags & SQLITE_OPEN_CREATE, 0);
    assert_eq!(req.path, "/nonexistent/dir/missing.db");
    assert_eq!(db.opened(SQLITE_CANTOPEN), Err(DbError::Open(SQLITE_CANTOPEN)));
    assert!(!db.is_open());
    assert_eq!(db.check_open(), Err(DbError::NotOpen));
    assert_eq!(db.stmt_for_query("SELECT 1"), Err(DbError::NotOpen));
}

#[test]
fn open_twice_is_refused() {
    let mut db = SQLite::new().file("a.db");
    let req = db.open(false).ok().unwrap();
    assert_eq!(req.flags, SQLITE_OPEN_READWRITE);
    db.opened(SQLITE_OK).unwrap();
    assert_eq!(db.open(false).err(), Some(DbError::AlreadyOpen));
    assert_eq!(db.create().err(), Some(DbError::AlreadyOpen));
}

#[test]
fn create_removes_file_backed_store() {
    let db = SQLite::new().file("people.db");
    let plan = db.create().ok().unwrap();
    assert!(plan.remove_file);
    assert_eq!(SQLite::removal_result(Removal::NotFound), Ok(()));
    assert_eq!(SQLite::removal_result(Removal::Removed), Ok(()));
    assert_eq!(SQLite::removal_result(Removal::Failed), Err(DbError::Filesystem));
    assert_eq!(SQLite::exec(SQLITE_ERROR), Err(DbError::Exec(SQLITE_ERROR)));
}

#[test]
fn insert_failure_is_absent() {
    assert_eq!(SQLite::insert(false, 0), None);
    assert_eq!(SQLite::insert(true, 0), Some(0));
}

#[test]
fn prepared_statements_are_reused() {
    let mut db = SQLite::new().in_memory().reuse_prepared();
    db.opened(SQLITE_OK).unwrap();
    let q = "SELECT * FROM person";
    let key = hash(q);
    assert_eq!(db.stmt_for_query(q), Ok(Lookup::Prepare(Some(key))));
    db.remember(key, 77);
    assert_eq!(db.stmt_for_query(q), Ok(Lookup::Cached(77)));
    assert_eq!(hash(q), key);
    assert_eq!(db.lookup(key), Ok(Lookup::Cached(77)));
    assert_eq!(db.lookup(key.wrapping_add(1)), Ok(Lookup::Prepare(Some(key.wrapping_add(1)))));
    assert_eq!(db.close(), CloseStep::Close(vec![77]));
    assert!(!db.closed(SQLITE_BUSY));
    assert!(db.is_open());
    assert!(db.closed(SQLITE_OK));
    assert_eq!(db.close(), CloseStep::Nothing);
    assert_eq!(db.check_open(), Err(DbError::NotOpen));
}

#[test]
fn lookup_without_reuse_always_prepares() {
    let mut db = SQLite::new().in_memory();
    assert_eq!(db.lookup(3), Err(DbError::NotOpen));
    db.opened(SQLITE_OK).unwrap();
    assert_eq!(db.lookup(3), Ok(Lookup::Prepare(None)));
    assert_eq!(db.stmt_for_query("SELECT 1"), Ok(Lookup::Prepare(None)));
    assert_eq!(db.path(), ":memory:");
}

#[test]
fn reset_reports_engine_status() {
    let mut st = Statement::for_query(SQLITE_OK, 1).ok().unwrap();
    bind_all(&mut st, Store::new().add(1i64));
    assert_eq!(st.step(SQLITE_BUSY), StepSignal::Error(SQLITE_BUSY));
    assert!(!st.reset(SQLITE_BUSY, SQLITE_OK));
    assert_eq!(st.phase(), Phase::Prepared);
    assert!(!st.reset(SQLITE_OK, SQLITE_ERROR));
    assert!(!st.reset(1, 2));
}

#[test]
fn rebinding_drops_earlier_rows() {
    let mut st = Statement::for_query(SQLITE_OK, 1).ok().unwrap();
    bind_all(&mut st, Store::new());
    st.step(SQLITE_ROW);
    st.fetch_row(vec![col("n", Type::Int64, Value::Int(1))]);
    bind_all(&mut st, Store::new());
    st.step(SQLITE_DONE);
    assert!(st.fetch_result().ok().unwrap().is_empty());
}

#[test]
fn full_row_check() {
    let good = vec![col("a", Type::Int64, Value::Int(1)), col("b", Type::Null, Value::Null)];
    assert!(is_full_row(&good, 2));
    assert!(!is_full_row(&good, 3));
    let bad = vec![col("a", Type::Int64, Value::Text("1".to_string()))];
    assert!(!is_full_row(&bad, 1));
}

#[test]
fn setup_stops_at_first_failure() {
    let mut setup = Setup::new(vec!["CREATE A".to_string(), "CREATE B".to_string(), "CREATE C".to_string()]);
    assert_eq!(setup.next(), Some("CREATE A".to_string()));
    setup.record(SQLITE_OK);
    assert_eq!(setup.outcome(), None);
    assert_eq!(setup.next(), Some("CREATE B".to_string()));
    setup.record(SQLITE_ERROR);
    assert_eq!(setup.next(), None);
    assert_eq!(setup.outcome(), Some(Err(DbError::Exec(SQLITE_ERROR))));
    let mut ok = Setup::new(vec!["X".to_string()]);
    ok.record(SQLITE_OK);
    assert_eq!(ok.next(), None);
    assert_eq!(ok.outcome(), Some(Ok(())));
    assert_eq!(Setup::new(Vec::new()).outcome(), Some(Ok(())));
}
