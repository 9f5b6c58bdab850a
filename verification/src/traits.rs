//! The capability-negotiated database contract: a capability descriptor, the
//! uniform CRUD / query / scan / transaction trait that every backend family
//! implements, and the structured result shapes those operations return.

use vstd::prelude::*;
use crate::AgentDbError;
use crate::BackendFamily;
use crate::Value;
use crate::kvlist::{appears, keys_unique, kv_map, lookup, upsert};

verus! {

/// Baseline capability descriptor: plain data, one field per advertised
/// feature or limit. It doubles as the abstract model that the
/// [`Capabilities`] trait exposes, so that contracts can speak of a
/// backend's capabilities as a single value.
///
/// The all-false, no-limit baseline ([`DefaultCapabilities::default`]) is the
/// starting point a backend implementer overrides per supported feature.
#[derive(Debug, Clone, Copy)]
pub struct DefaultCapabilities {
    /// ACID transactions via `begin`.
    pub transactions: bool,
    /// Directory-like key hierarchies.
    pub directories: bool,
    /// Graph traversal queries.
    pub graph_queries: bool,
    /// Structured SQL queries.
    pub sql_queries: bool,
    /// Secondary indexes.
    pub indexes: bool,
    /// Time-to-live for keys.
    pub ttl: bool,
    /// Maximum key size in bytes (`None` = unlimited).
    pub max_key_size: Option<usize>,
    /// Maximum value size in bytes (`None` = unlimited).
    pub max_value_size: Option<usize>,
}

/// The all-false, unlimited-size baseline.
pub open spec fn baseline_caps() -> DefaultCapabilities {
    DefaultCapabilities {
        transactions: false,
        directories: false,
        graph_queries: false,
        sql_queries: false,
        indexes: false,
        ttl: false,
        max_key_size: None,
        max_value_size: None,
    }
}

impl Default for DefaultCapabilities {
    /// Start from nothing supported and no declared limits.
    fn default() -> (r: Self)
        ensures
            r == baseline_caps(),
    {
        DefaultCapabilities {
            transactions: false,
            directories: false,
            graph_queries: false,
            sql_queries: false,
            indexes: false,
            ttl: false,
            max_key_size: None,
            max_value_size: None,
        }
    }
}

/// Backend capability descriptor.
///
/// All accessors are pure and stable: they answer from `snap`, a single
/// abstract snapshot that never changes for the lifetime of the owning
/// database instance. Capability flags are advisory contracts: when a flag is
/// false the corresponding operation must be rejected with
/// [`AgentDbError::Unsupported`], and a well-behaved caller checks the flag
/// before calling.
pub trait Capabilities: Sized {
    /// The descriptor as one abstract value.
    spec fn snap(&self) -> DefaultCapabilities;

    /// Does this backend support ACID transactions?
    fn supports_transactions(&self) -> (r: bool)
        ensures
            r == self.snap().transactions,
    ;

    /// Does this backend support directory-like hierarchies?
    fn supports_directories(&self) -> (r: bool)
        ensures
            r == self.snap().directories,
    ;

    /// Does this backend support graph traversals?
    fn supports_graph_queries(&self) -> (r: bool)
        ensures
            r == self.snap().graph_queries,
    ;

    /// Does this backend support structured SQL queries?
    fn supports_sql_queries(&self) -> (r: bool)
        ensures
            r == self.snap().sql_queries,
    ;

    /// Does this backend support secondary indexes?
    fn supports_indexes(&self) -> (r: bool)
        ensures
            r == self.snap().indexes,
    ;

    /// Does this backend support TTL (time-to-live) for keys?
    fn supports_ttl(&self) -> (r: bool)
        ensures
            r == self.snap().ttl,
    ;

    /// Maximum key size in bytes (`None` = unlimited).
    fn max_key_size(&self) -> (r: Option<usize>)
        ensures
            r == self.snap().max_key_size,
    ;

    /// Maximum value size in bytes (`None` = unlimited).
    fn max_value_size(&self) -> (r: Option<usize>)
        ensures
            r == self.snap().max_value_size,
    ;
}

impl Capabilities for DefaultCapabilities {
    open spec fn snap(&self) -> DefaultCapabilities {
        *self
    }

    fn supports_transactions(&self) -> bool {
        self.transactions
    }

    fn supports_directories(&self) -> bool {
        self.directories
    }

    fn supports_graph_queries(&self) -> bool {
        self.graph_queries
    }

    fn supports_sql_queries(&self) -> bool {
        self.sql_queries
    }

    fn supports_indexes(&self) -> bool {
        self.indexes
    }

    fn supports_ttl(&self) -> bool {
        self.ttl
    }

    fn max_key_size(&self) -> Option<usize> {
        self.max_key_size
    }

    fn max_value_size(&self) -> Option<usize> {
        self.max_value_size
    }
}

/// A single row of a query result: a mapping from column name to value,
/// with no duplicate column names (last write wins on construction).
#[derive(Debug)]
pub struct Row {
    columns: Vec<(String, Value)>,
}

impl Clone for Row {
    /// The copy maps the same column names to the same bytes.
    fn clone(&self) -> (r: Self)
        ensures
            r@ == self@,
    {
        proof {
            use_type_invariant(self);
        }
        let columns = crate::kvlist::clone_entries(&self.columns);
        proof {
            crate::kvlist::lemma_views_match(self.columns@, columns@);
        }
        Row { columns }
    }
}

impl View for Row {
    type V = Map<Seq<char>, Seq<u8>>;

    closed spec fn view(&self) -> Map<Seq<char>, Seq<u8>> {
        kv_map(self.columns@)
    }
}

impl Row {
    #[verifier::type_invariant]
    closed spec fn wf(self) -> bool {
        keys_unique(self.columns@)
    }

    /// An empty row.
    pub fn new() -> (r: Self)
        ensures
            r@ == Map::<Seq<char>, Seq<u8>>::empty(),
    {
        let r = Row { columns: Vec::new() };
        proof {
            assert(r@ =~= Map::<Seq<char>, Seq<u8>>::empty());
        }
        r
    }

    /// Add a column, replacing any earlier column of the same name.
    pub fn with_column(self, name: String, value: Value) -> (r: Self)
        ensures
            r@ == self@.insert(name@, value@),
    {
        proof {
            use_type_invariant(&self);
        }
        let Row { mut columns } = self;
        upsert(&mut columns, name.as_str(), value);
        Row { columns }
    }

    /// Look up a column value by name.
    pub fn get(&self, name: &str) -> (r: Option<&Value>)
        ensures
            r matches Some(v) ==> self@.contains_key(name@) && v@ == self@[name@],
            r is None ==> !self@.contains_key(name@),
    {
        proof {
            use_type_invariant(self);
        }
        lookup(&self.columns, name)
    }
}

impl Default for Row {
    /// Same as [`Row::new`]: an empty row.
    fn default() -> (r: Self)
        ensures
            r@ == Map::<Seq<char>, Seq<u8>>::empty(),
    {
        Row::new()
    }
}

/// Result of a query operation: the rows a read query produced, and the
/// number of rows a write query affected. The exact pairing is
/// backend-defined, but internally consistent for a given backend.
#[derive(Debug, Clone)]
pub struct QueryResult {
    /// Rows returned by the query.
    pub rows: Vec<Row>,
    /// Number of rows affected (for INSERT/UPDATE/DELETE-style queries).
    pub rows_affected: usize,
}

impl QueryResult {
    /// Package rows and an affected-row count.
    pub fn new(rows: Vec<Row>, rows_affected: usize) -> (r: Self)
        ensures
            r.rows == rows,
            r.rows_affected == rows_affected,
    {
        QueryResult { rows, rows_affected }
    }

    /// No rows, nothing affected.
    pub fn empty() -> (r: Self)
        ensures
            r.rows@.len() == 0,
            r.rows_affected == 0,
    {
        QueryResult { rows: Vec::new(), rows_affected: 0 }
    }
}

/// Result of a scan operation: the stored keys that begin with the requested
/// prefix. The interface imposes no ordering on them.
#[derive(Debug, Clone)]
pub struct ScanResult {
    /// Keys matching the prefix.
    pub keys: Vec<String>,
}

impl ScanResult {
    /// Package a list of matching keys.
    pub fn new(keys: Vec<String>) -> (r: Self)
        ensures
            r.keys == keys,
    {
        ScanResult { keys }
    }

    /// No matching keys.
    pub fn empty() -> (r: Self)
        ensures
            r.keys@.len() == 0,
    {
        ScanResult { keys: Vec::new() }
    }
}

/// A one-shot, consuming unit-of-work handle returned by [`AgentDB::begin`].
///
/// Exactly one of `commit` or `rollback` can ever run, exactly once: both
/// take the handle by value, so the type system itself rules out any further
/// use of the handle afterwards. Either call settles the work recorded since
/// `begin` against the database the handle came from.
pub trait Transaction: Sized {
    /// The database type this handle settles against.
    type Db;

    /// Make the operations performed since `begin` durable.
    fn commit(self, db: &mut Self::Db) -> (r: Result<(), AgentDbError>);

    /// Discard the operations performed since `begin`.
    fn rollback(self, db: &mut Self::Db) -> (r: Result<(), AgentDbError>);
}

/// The uniform database contract each backend family implements.
///
/// A backend is modelled by three abstract pieces of state: the key-value map
/// it currently stores (`db_map`), whether it is still open (`is_open`), and
/// its fixed identity (`family_spec`, `caps_spec`). The method contracts are
/// written against that model and hold for *every* implementation:
///
/// - capability and family are fixed: no operation changes them;
/// - only `close` leaves the open state; afterwards every operation fails
///   with [`AgentDbError::Connection`] and leaves the stored map unchanged;
/// - an operation that fails leaves the stored map unchanged;
/// - a `get` that succeeds answers exactly from the stored map, and never
///   reports an absent key as an error;
/// - a `begin` on a backend that does not advertise transactions fails with
///   [`AgentDbError::Unsupported`] and nothing else.
pub trait AgentDB: Sized {
    /// This backend's capability descriptor type.
    type Caps: Capabilities;

    /// This backend's transaction handle type.
    type Tx;

    /// The key-value map currently stored.
    spec fn db_map(&self) -> Map<Seq<char>, Seq<u8>>;

    /// Whether the instance is still open. `Open -> (operations)* -> Closed`,
    /// and `Closed` is terminal.
    spec fn is_open(&self) -> bool;

    /// The backend family, fixed at construction.
    spec fn family_spec(&self) -> BackendFamily;

    /// The capability descriptor, fixed at construction.
    spec fn caps_spec(&self) -> DefaultCapabilities;

    /// The structural category of this backend.
    fn family(&self) -> (r: BackendFamily)
        ensures
            r == self.family_spec(),
    ;

    /// The capability descriptor callers consult before branching.
    fn capabilities(&self) -> (r: &Self::Caps)
        ensures
            r.snap() == self.caps_spec(),
    ;

    /// Upsert `key` to `value`.
    fn put(&mut self, key: &str, value: Value) -> (r: Result<(), AgentDbError>)
        ensures
            final(self).family_spec() == old(self).family_spec(),
            final(self).caps_spec() == old(self).caps_spec(),
            final(self).is_open() == old(self).is_open(),
            !old(self).is_open() ==> r is Err && r->Err_0 is Connection,
            r is Ok ==> old(self).is_open() && final(self).db_map() == old(self).db_map().insert(
                key@,
                value@,
            ),
            r is Err ==> final(self).db_map() == old(self).db_map(),
            r is Err ==> !(r->Err_0 is NotFound) && !(r->Err_0 is Unsupported),
    ;

    /// Read the value stored under `key`; `Ok(None)` when the key is absent.
    fn get(&self, key: &str) -> (r: Result<Option<Value>, AgentDbError>)
        ensures
            !self.is_open() ==> r is Err && r->Err_0 is Connection,
            r is Ok ==> self.is_open(),
            r matches Ok(Some(v)) ==> self.db_map().contains_key(key@) && v@ == self.db_map().index(
                key@,
            ),
            r matches Ok(None) ==> !self.db_map().contains_key(key@),
            r is Err ==> !(r->Err_0 is NotFound),
    ;

    /// Remove `key` if present; removing an absent key succeeds too.
    fn delete(&mut self, key: &str) -> (r: Result<(), AgentDbError>)
        ensures
            final(self).family_spec() == old(self).family_spec(),
            final(self).caps_spec() == old(self).caps_spec(),
            final(self).is_open() == old(self).is_open(),
            !old(self).is_open() ==> r is Err && r->Err_0 is Connection,
            r is Ok ==> old(self).is_open() && final(self).db_map() == old(self).db_map().remove(
                key@,
            ),
            r is Err ==> final(self).db_map() == old(self).db_map(),
            r is Err ==> !(r->Err_0 is NotFound) && !(r->Err_0 is Unsupported),
    ;

    /// Side-effect-free existence probe.
    fn key_exists(&self, key: &str) -> (r: Result<bool, AgentDbError>)
        ensures
            !self.is_open() ==> r is Err && r->Err_0 is Connection,
            r matches Ok(b) ==> self.is_open() && b == self.db_map().contains_key(key@),
            r is Err ==> !(r->Err_0 is NotFound),
    ;

    /// Execute a backend-specific query. The grammar of `query` is entirely
    /// backend-defined; the interface fixes only the result shape and that a
    /// failed query changes nothing.
    fn query(&mut self, query: &str, params: Vec<Value>) -> (r: Result<QueryResult, AgentDbError>)
        ensures
            final(self).family_spec() == old(self).family_spec(),
            final(self).caps_spec() == old(self).caps_spec(),
            final(self).is_open() == old(self).is_open(),
            !old(self).is_open() ==> r is Err && r->Err_0 is Connection,
            r is Ok ==> old(self).is_open(),
            r is Err ==> final(self).db_map() == old(self).db_map(),
    ;

    /// Enumerate the stored keys that begin with `prefix` (the empty prefix
    /// enumerates the whole keyspace). Backends that cannot enumerate keys
    /// fail with [`AgentDbError::Unsupported`].
    fn scan(&self, prefix: &str) -> (r: Result<ScanResult, AgentDbError>)
        ensures
            !self.is_open() ==> r is Err && r->Err_0 is Connection,
            r matches Ok(sr) ==> self.is_open() && forall|k: Seq<char>|
                #[trigger] appears(sr.keys@, k) <==> (self.db_map().contains_key(k)
                    && prefix@.is_prefix_of(k)),
            r is Err ==> !(r->Err_0 is NotFound),
    ;

    /// Open a unit of work. Fails with [`AgentDbError::Unsupported`], and
    /// with nothing else, when the capability descriptor does not advertise
    /// transactions.
    fn begin(&mut self) -> (r: Result<Self::Tx, AgentDbError>)
        ensures
            final(self).family_spec() == old(self).family_spec(),
            final(self).caps_spec() == old(self).caps_spec(),
            final(self).is_open() == old(self).is_open(),
            final(self).db_map() == old(self).db_map(),
            !old(self).is_open() ==> r is Err && r->Err_0 is Connection,
            old(self).is_open() && !old(self).caps_spec().transactions ==> r is Err && r->Err_0
                is Unsupported,
            r is Ok ==> old(self).is_open() && old(self).caps_spec().transactions,
    ;

    /// Release backend resources. The instance is closed afterwards no
    /// matter what is returned, and closing an already closed instance is
    /// safe: it either no-ops or reports a [`AgentDbError::Connection`]
    /// error, as the backend documents.
    fn close(&mut self) -> (r: Result<(), AgentDbError>)
        ensures
            final(self).family_spec() == old(self).family_spec(),
            final(self).caps_spec() == old(self).caps_spec(),
            !final(self).is_open(),
            !old(self).is_open() ==> r is Ok || r->Err_0 is Connection,
    ;
}

} // verus!
