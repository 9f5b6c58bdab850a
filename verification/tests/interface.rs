//! End-to-end tests of the database abstraction, driven through the
//! in-memory backend.

use agentdb::{
    AgentDB, AgentDbError, BackendFamily, Capabilities, DefaultCapabilities, MemoryBackend,
    QueryResult, Row, ScanResult, Transaction, Value,
};

fn kv_caps() -> DefaultCapabilities {
    DefaultCapabilities::default()
}

fn tx_caps() -> DefaultCapabilities {
    DefaultCapabilities {
        transactions: true,
        ..DefaultCapabilities::default()
    }
}

#[test]
fn value_round_trip() {
    let v = Value::new(vec![1u8, 2, 3]);
    assert_eq!(v.as_bytes(), &[1u8, 2, 3]);
    assert_eq!(v.into_bytes(), vec![1u8, 2, 3]);
    let v = Value::from_slice(b"abc");
    assert_eq!(v.as_bytes(), b"abc");
    let v: Value = Value::from(vec![9u8]);
    assert_eq!(v.as_bytes(), &[9u8]);
    let v: Value = Value::from(&b"xy"[..]);
    assert_eq!(v.as_bytes(), b"xy");
}

#[test]
fn value_equality_is_byte_exact() {
    assert_eq!(Value::from_slice(b"abc"), Value::new(b"abc".to_vec()));
    assert_ne!(Value::from_slice(b"abc"), Value::from_slice(b"abd"));
    assert_ne!(Value::from_slice(b"abc"), Value::from_slice(b"ab"));
    assert_eq!(Value::from_slice(b""), Value::new(Vec::new()));
    let v = Value::from_slice(b"clone me");
    assert_eq!(v.clone(), v);
}

#[test]
fn row_last_write_wins() {
    let row = Row::new()
        .with_column(String::from("name"), Value::from_slice(b"first"))
        .with_column(String::from("age"), Value::from_slice(b"30"))
        .with_column(String::from("name"), Value::from_slice(b"second"));
    assert_eq!(row.get("name").unwrap().as_bytes(), b"second");
    assert_eq!(row.get("age").unwrap().as_bytes(), b"30");
    assert!(row.get("missing").is_none());
    let copy = row.clone();
    assert_eq!(copy.get("name").unwrap().as_bytes(), b"second");
    assert!(Row::default().get("anything").is_none());
}

#[test]
fn query_and_scan_result_shapes() {
    let row = Row::new().with_column(String::from("c"), Value::from_slice(b"1"));
    let qr = QueryResult::new(vec![row], 1);
    assert_eq!(qr.rows.len(), 1);
    assert_eq!(qr.rows_affected, 1);
    let qr = QueryResult::empty();
    assert!(qr.rows.is_empty());
    assert_eq!(qr.rows_affected, 0);
    let sr = ScanResult::new(vec![String::from("a")]);
    assert_eq!(sr.keys, vec![String::from("a")]);
    assert!(ScanResult::empty().keys.is_empty());
}

#[test]
fn default_capabilities_are_all_false_and_unlimited() {
    let caps = DefaultCapabilities::default();
    assert!(!caps.supports_transactions());
    assert!(!caps.supports_directories());
    assert!(!caps.supports_graph_queries());
    assert!(!caps.supports_sql_queries());
    assert!(!caps.supports_indexes());
    assert!(!caps.supports_ttl());
    assert!(caps.max_key_size().is_none());
    assert!(caps.max_value_size().is_none());
}

#[test]
fn backend_family_labels() {
    assert_eq!(BackendFamily::Sql.label(), "SQL");
    assert_eq!(BackendFamily::Kv.label(), "KeyValue");
    assert_eq!(BackendFamily::Graph.label(), "Graph");
    assert_eq!(BackendFamily::Kv, BackendFamily::Kv);
    assert_ne!(BackendFamily::Sql, BackendFamily::Graph);
}

#[test]
fn backend_identity() {
    let db = MemoryBackend::new(BackendFamily::Kv, tx_caps());
    assert_eq!(db.family(), BackendFamily::Kv);
    assert!(db.capabilities().supports_transactions());
    assert!(!db.capabilities().supports_sql_queries());
}

#[test]
fn put_get_round_trip() {
    let mut db = MemoryBackend::new(BackendFamily::Kv, kv_caps());
    db.put("k", Value::from_slice(b"v")).unwrap();
    let got = db.get("k").unwrap().unwrap();
    assert_eq!(got.as_bytes(), b"v");
    db.put("k", Value::from_slice(b"w")).unwrap();
    assert_eq!(db.get("k").unwrap().unwrap().as_bytes(), b"w");
    assert_eq!(db.get("untouched").unwrap(), None);
}

#[test]
fn get_of_key_never_written_is_ok_none() {
    let db = MemoryBackend::new(BackendFamily::Kv, kv_caps());
    let r = db.get("never-written");
    assert!(matches!(r, Ok(None)));
}

#[test]
fn delete_is_idempotent() {
    let mut db = MemoryBackend::new(BackendFamily::Kv, kv_caps());
    db.put("k", Value::from_slice(b"v")).unwrap();
    assert!(db.delete("k").is_ok());
    assert!(db.delete("k").is_ok());
    assert_eq!(db.get("k").unwrap(), None);
    assert!(db.delete("was-never-there").is_ok());
}

#[test]
fn key_exists_probe() {
    let mut db = MemoryBackend::new(BackendFamily::Kv, kv_caps());
    assert!(!db.key_exists("k").unwrap());
    db.put("k", Value::from_slice(b"v")).unwrap();
    assert!(db.key_exists("k").unwrap());
    assert!(!db.key_exists("other").unwrap());
}

#[test]
fn begin_without_capability_fails_unsupported() {
    let mut db = MemoryBackend::new(BackendFamily::Kv, kv_caps());
    assert!(!db.capabilities().supports_transactions());
    let r = db.begin();
    assert!(matches!(r, Err(AgentDbError::Unsupported(_))));
}

#[test]
fn scan_returns_exactly_the_prefixed_keys() {
    let mut db = MemoryBackend::new(BackendFamily::Kv, kv_caps());
    db.put("a/1", Value::from_slice(b"1")).unwrap();
    db.put("a/2", Value::from_slice(b"2")).unwrap();
    db.put("b/1", Value::from_slice(b"3")).unwrap();
    let mut keys = db.scan("a/").unwrap().keys;
    keys.sort();
    assert_eq!(keys, vec![String::from("a/1"), String::from("a/2")]);
    let mut all = db.scan("").unwrap().keys;
    all.sort();
    assert_eq!(
        all,
        vec![String::from("a/1"), String::from("a/2"), String::from("b/1")]
    );
    assert!(db.scan("c/").unwrap().keys.is_empty());
}

#[test]
fn operations_after_close_fail_with_connection() {
    let mut db = MemoryBackend::new(BackendFamily::Kv, tx_caps());
    db.put("k", Value::from_slice(b"v")).unwrap();
    assert!(db.close().is_ok());
    assert!(matches!(
        db.put("k", Value::from_slice(b"v")),
        Err(AgentDbError::Connection(_))
    ));
    assert!(matches!(db.get("k"), Err(AgentDbError::Connection(_))));
    assert!(matches!(db.delete("k"), Err(AgentDbError::Connection(_))));
    assert!(matches!(db.key_exists("k"), Err(AgentDbError::Connection(_))));
    assert!(matches!(
        db.query("ignored", Vec::new()),
        Err(AgentDbError::Connection(_))
    ));
    assert!(matches!(db.scan(""), Err(AgentDbError::Connection(_))));
    assert!(matches!(db.begin(), Err(AgentDbError::Connection(_))));
    assert!(db.close().is_ok());
}

#[test]
fn transaction_commit_keeps_the_write() {
    let mut db = MemoryBackend::new(BackendFamily::Kv, tx_caps());
    let tx = db.begin().unwrap();
    db.put("x", Value::from_slice(b"1")).unwrap();
    tx.commit(&mut db).unwrap();
    assert_eq!(db.get("x").unwrap().unwrap().as_bytes(), b"1");
}

#[test]
fn transaction_rollback_discards_the_write() {
    let mut db = MemoryBackend::new(BackendFamily::Kv, tx_caps());
    let tx = db.begin().unwrap();
    db.put("x", Value::from_slice(b"1")).unwrap();
    tx.rollback(&mut db).unwrap();
    assert_eq!(db.get("x").unwrap(), None);
}

#[test]
fn transaction_rollback_restores_the_prior_value() {
    let mut db = MemoryBackend::new(BackendFamily::Kv, tx_caps());
    db.put("x", Value::from_slice(b"0")).unwrap();
    let tx = db.begin().unwrap();
    db.put("x", Value::from_slice(b"1")).unwrap();
    db.delete("y").unwrap();
    tx.rollback(&mut db).unwrap();
    assert_eq!(db.get("x").unwrap().unwrap().as_bytes(), b"0");
}

#[test]
fn second_begin_before_settling_fails() {
    let mut db = MemoryBackend::new(BackendFamily::Kv, tx_caps());
    let _tx = db.begin().unwrap();
    assert!(matches!(db.begin(), Err(AgentDbError::Transaction(_))));
}

#[test]
fn commit_without_begin_fails() {
    let mut db = MemoryBackend::new(BackendFamily::Kv, tx_caps());
    let tx = db.begin().unwrap();
    tx.commit(&mut db).unwrap();
    let tx2 = db.begin().unwrap();
    tx2.rollback(&mut db).unwrap();
    let mut other = MemoryBackend::new(BackendFamily::Kv, tx_caps());
    let tx3 = db.begin().unwrap();
    assert!(matches!(
        tx3.commit(&mut other),
        Err(AgentDbError::Transaction(_))
    ));
}

#[test]
fn settling_a_transaction_after_close_fails_with_connection() {
    let mut db = MemoryBackend::new(BackendFamily::Kv, tx_caps());
    let tx = db.begin().unwrap();
    db.close().unwrap();
    assert!(matches!(
        tx.commit(&mut db),
        Err(AgentDbError::Connection(_))
    ));
    let mut db2 = MemoryBackend::new(BackendFamily::Kv, tx_caps());
    let tx2 = db2.begin().unwrap();
    db2.close().unwrap();
    assert!(matches!(
        tx2.rollback(&mut db2),
        Err(AgentDbError::Connection(_))
    ));
}

#[test]
fn declared_size_limits_are_enforced() {
    let caps = DefaultCapabilities {
        max_key_size: Some(3),
        max_value_size: Some(2),
        ..DefaultCapabilities::default()
    };
    let mut db = MemoryBackend::new(BackendFamily::Kv, caps);
    assert!(matches!(
        db.put("abcd", Value::from_slice(b"v")),
        Err(AgentDbError::InvalidOperation(_))
    ));
    assert!(matches!(
        db.put("abc", Value::from_slice(b"vvv")),
        Err(AgentDbError::InvalidOperation(_))
    ));
    db.put("abc", Value::from_slice(b"vv")).unwrap();
    assert_eq!(db.get("abc").unwrap().unwrap().as_bytes(), b"vv");
    assert_eq!(db.get("abcd").unwrap(), None);
}

#[test]
fn memory_backend_rejects_queries_as_unsupported() {
    let mut db = MemoryBackend::new(BackendFamily::Kv, kv_caps());
    let r = db.query("SELECT 1", vec![Value::from_slice(b"p")]);
    assert!(matches!(r, Err(AgentDbError::Unsupported(_))));
}

#[test]
fn error_kinds_carry_their_messages() {
    let errs = vec![
        AgentDbError::NotFound(String::from("k")),
        AgentDbError::Unsupported(String::from("op")),
        AgentDbError::Transaction(String::from("t")),
        AgentDbError::Connection(String::from("c")),
        AgentDbError::Serialization(String::from("s")),
        AgentDbError::InvalidOperation(String::from("i")),
        AgentDbError::Backend(String::from("b")),
        AgentDbError::Io(String::from("io")),
        AgentDbError::Other(String::from("o")),
    ];
    assert_eq!(errs.len(), 9);
    assert!(matches!(&errs[0], AgentDbError::NotFound(m) if m == "k"));
    assert!(matches!(&errs[8], AgentDbError::Other(m) if m == "o"));
}
