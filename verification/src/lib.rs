//! A backend-agnostic data-access layer: one uniform CRUD / query / scan /
//! transaction surface that SQL, key-value and graph engines can all
//! implement, with a runtime capability descriptor telling callers which
//! operations a given backend honors.

use vstd::prelude::*;

pub mod error;
pub mod kvlist;
pub mod laws;
pub mod memory;
pub mod traits;

pub use error::AgentDbError;
pub use memory::{MemoryBackend, MemoryTransaction};
pub use traits::{
    AgentDB, Capabilities, DefaultCapabilities, QueryResult, Row, ScanResult, Transaction,
};

verus! {

/// Structural category of a storage engine, fixed for the lifetime of a
/// database instance. Callers use it for coarse dispatch when the capability
/// flags are not enough.
#[derive(Debug, Clone, Copy, PartialEq, Eq, Hash, Structural)]
pub enum BackendFamily {
    /// SQL-based backends (SQLite, PostgreSQL, MySQL)
    Sql,
    /// Key-value backends (Redis, KeyDB, FoundationDB)
    Kv,
    /// Graph backends (Neo4j, Dgraph, TigerGraph)
    Graph,
}

impl BackendFamily {
    /// Human-readable name of the family.
    pub fn label(&self) -> (r: &'static str)
        ensures
            *self is Sql ==> r@ == "SQL"@,
            *self is Kv ==> r@ == "KeyValue"@,
            *self is Graph ==> r@ == "Graph"@,
    {
        match self {
            BackendFamily::Sql => "SQL",
            BackendFamily::Kv => "KeyValue",
            BackendFamily::Graph => "Graph",
        }
    }
}

/// An opaque, immutable byte buffer: the universal unit of stored and queried
/// data. The interface performs no encoding or decoding; equality is
/// byte-for-byte.
#[derive(Debug, Eq)]
pub struct Value(Vec<u8>);

/// Byte-for-byte slice equality.
fn bytes_eq(a: &[u8], b: &[u8]) -> (r: bool)
    ensures
        r == (a@ == b@),
{
    let n = a.len();
    if n != b.len() {
        return false;
    }
    let mut i: usize = 0;
    while i < n
        invariant
            0 <= i <= n,
            n == a@.len(),
            n == b@.len(),
            forall|j: int| 0 <= j < i ==> a@[j] == b@[j],
        decreases n - i,
    {
        if a[i] != b[i] {
            return false;
        }
        i += 1;
    }
    proof {
        assert(a@ =~= b@);
    }
    true
}

impl PartialEq for Value {
    fn eq(&self, other: &Self) -> (r: bool)
        ensures
            r == (self@ == other@),
    {
        bytes_eq(self.0.as_slice(), other.0.as_slice())
    }
}

impl vstd::std_specs::cmp::PartialEqSpecImpl for Value {
    open spec fn obeys_eq_spec() -> bool {
        true
    }

    open spec fn eq_spec(&self, other: &Value) -> bool {
        self@ == other@
    }
}

impl From<Vec<u8>> for Value {
    /// Same as [`Value::new`]: take ownership of the bytes.
    fn from(data: Vec<u8>) -> (r: Self)
        ensures
            r@ == data@,
    {
        Value(data)
    }
}

impl vstd::std_specs::convert::FromSpecImpl<Vec<u8>> for Value {
    open spec fn obeys_from_spec() -> bool {
        true
    }

    closed spec fn from_spec(data: Vec<u8>) -> Value {
        Value(data)
    }
}

impl From<&[u8]> for Value {
    /// Same as [`Value::from_slice`]: copy the bytes.
    fn from(data: &[u8]) -> (r: Self)
        ensures
            r@ == data@,
    {
        Value(vstd::slice::slice_to_vec(data))
    }
}

impl vstd::std_specs::convert::FromSpecImpl<&[u8]> for Value {
    open spec fn obeys_from_spec() -> bool {
        false
    }

    closed spec fn from_spec(data: &[u8]) -> Value {
        vstd::pervasive::arbitrary()
    }
}

impl Clone for Value {
    /// The copy holds the same bytes.
    fn clone(&self) -> (r: Self)
        ensures
            r@ == self@,
    {
        Value(vstd::slice::slice_to_vec(self.0.as_slice()))
    }
}

impl View for Value {
    type V = Seq<u8>;

    closed spec fn view(&self) -> Seq<u8> {
        self.0@
    }
}

impl Value {
    /// Create a new value, taking ownership of the bytes.
    pub fn new(data: Vec<u8>) -> (r: Self)
        ensures
            r@ == data@,
    {
        Value(data)
    }

    /// Create a value by copying a byte slice.
    pub fn from_slice(data: &[u8]) -> (r: Self)
        ensures
            r@ == data@,
    {
        Value(vstd::slice::slice_to_vec(data))
    }

    /// Borrow the underlying bytes.
    pub fn as_bytes(&self) -> (r: &[u8])
        ensures
            r@ == self@,
    {
        self.0.as_slice()
    }

    /// Consume the value and return the owned bytes.
    pub fn into_bytes(self) -> (r: Vec<u8>)
        ensures
            r@ == self@,
    {
        self.0
    }
}

} // verus!
