//! A verified in-memory backend: the reference implementation of the
//! [`AgentDB`] contract, and the backend the test suite drives. It stores
//! the key space in a single association list, honors the declared size
//! limits strictly, and supports one transaction at a time whose rollback
//! restores the snapshot taken at `begin`.

use vstd::prelude::*;
use vstd::string::StringSliceAdditionalSpecFns;
use crate::AgentDbError;
use crate::BackendFamily;
use crate::Value;
use crate::kvlist::{
    appears, clone_entries, keys_unique, kv_map, lemma_views_match, lookup, remove_key, scan_keys,
    upsert,
};
use crate::traits::{AgentDB, Capabilities, DefaultCapabilities, QueryResult, ScanResult,
    Transaction};

verus! {

/// The declared key-size limit admits `key`.
pub open spec fn fits_key_limit(caps: DefaultCapabilities, key: &str) -> bool {
    caps.max_key_size matches Some(m) ==> key.spec_bytes().len() <= m
}

/// The declared value-size limit admits `value`.
pub open spec fn fits_value_limit(caps: DefaultCapabilities, value: Value) -> bool {
    caps.max_value_size matches Some(m) ==> value@.len() <= m
}

/// An in-memory database instance.
pub struct MemoryBackend {
    family: BackendFamily,
    caps: DefaultCapabilities,
    open: bool,
    in_tx: bool,
    entries: Vec<(String, Value)>,
}

/// The unit-of-work handle of [`MemoryBackend`]: it owns the snapshot taken
/// at `begin`, which `rollback` reinstates and `commit` discards.
pub struct MemoryTransaction {
    snapshot: Vec<(String, Value)>,
}

impl MemoryTransaction {
    #[verifier::type_invariant]
    closed spec fn wf(self) -> bool {
        keys_unique(self.snapshot@)
    }

    /// The stored map as it was when this transaction began.
    pub closed spec fn saved_map(&self) -> Map<Seq<char>, Seq<u8>> {
        kv_map(self.snapshot@)
    }
}

impl MemoryBackend {
    #[verifier::type_invariant]
    closed spec fn wf(self) -> bool {
        keys_unique(self.entries@)
    }

    /// Whether a transaction is currently active on this instance.
    pub closed spec fn tx_active(&self) -> bool {
        self.in_tx
    }

    /// A fresh, open, empty instance with the given identity.
    pub fn new(family: BackendFamily, caps: DefaultCapabilities) -> (r: MemoryBackend)
        ensures
            r.is_open(),
            !r.tx_active(),
            r.db_map() == Map::<Seq<char>, Seq<u8>>::empty(),
            r.family_spec() == family,
            r.caps_spec() == caps,
    {
        let r = MemoryBackend { family, caps, open: true, in_tx: false, entries: Vec::new() };
        proof {
            assert(r.db_map() =~= Map::<Seq<char>, Seq<u8>>::empty());
        }
        r
    }
}

impl AgentDB for MemoryBackend {
    type Caps = DefaultCapabilities;

    type Tx = MemoryTransaction;

    closed spec fn db_map(&self) -> Map<Seq<char>, Seq<u8>> {
        kv_map(self.entries@)
    }

    closed spec fn is_open(&self) -> bool {
        self.open
    }

    closed spec fn family_spec(&self) -> BackendFamily {
        self.family
    }

    closed spec fn caps_spec(&self) -> DefaultCapabilities {
        self.caps
    }

    fn family(&self) -> BackendFamily {
        self.family
    }

    fn capabilities(&self) -> &DefaultCapabilities {
        &self.caps
    }

    /// Also: when the instance is open, `put` succeeds exactly when the key
    /// and value fit the declared limits, and rejects an oversized argument
    /// with `InvalidOperation`; the transaction flag is untouched.
    fn put(&mut self, key: &str, value: Value) -> (r: Result<(), AgentDbError>)
        ensures
            final(self).tx_active() == old(self).tx_active(),
            old(self).is_open() && !fits_key_limit(old(self).caps_spec(), key) ==> r is Err
                && r->Err_0 is InvalidOperation,
            old(self).is_open() && fits_key_limit(old(self).caps_spec(), key) && !fits_value_limit(
                old(self).caps_spec(),
                value,
            ) ==> r is Err && r->Err_0 is InvalidOperation,
            old(self).is_open() && fits_key_limit(old(self).caps_spec(), key) && fits_value_limit(
                old(self).caps_spec(),
                value,
            ) ==> r is Ok,
    {
        proof {
            use_type_invariant(&*self);
        }
        if !self.open {
            return Err(AgentDbError::Connection("instance is closed".to_owned()));
        }
        if let Some(m) = self.caps.max_key_size {
            let key_bytes: &[u8] = key.as_bytes();
            proof {
                broadcast use vstd::slice::axiom_spec_len;
            }
            if key_bytes.len() > m {
                return Err(AgentDbError::InvalidOperation("key exceeds max_key_size".to_owned()));
            }
        }
        if let Some(m) = self.caps.max_value_size {
            if value.as_bytes().len() > m {
                return Err(
                    AgentDbError::InvalidOperation("value exceeds max_value_size".to_owned()),
                );
            }
        }
        let mut entries: Vec<(String, Value)> = Vec::new();
        core::mem::swap(&mut entries, &mut self.entries);
        upsert(&mut entries, key, value);
        core::mem::swap(&mut entries, &mut self.entries);
        Ok(())
    }

    /// Also: an open instance always answers `Ok`, with `Some` exactly when
    /// the key is stored.
    fn get(&self, key: &str) -> (r: Result<Option<Value>, AgentDbError>)
        ensures
            self.is_open() ==> r is Ok,
            r matches Ok(o) ==> (o is Some <==> self.db_map().contains_key(key@)),
    {
        proof {
            use_type_invariant(self);
        }
        if !self.open {
            return Err(AgentDbError::Connection("instance is closed".to_owned()));
        }
        match lookup(&self.entries, key) {
            Some(v) => Ok(Some(v.clone())),
            None => Ok(None),
        }
    }

    /// Also: an open instance always answers `Ok`, whether or not the key
    /// was stored; the transaction flag is untouched.
    fn delete(&mut self, key: &str) -> (r: Result<(), AgentDbError>)
        ensures
            final(self).tx_active() == old(self).tx_active(),
            old(self).is_open() ==> r is Ok,
    {
        proof {
            use_type_invariant(&*self);
        }
        if !self.open {
            return Err(AgentDbError::Connection("instance is closed".to_owned()));
        }
        let mut entries: Vec<(String, Value)> = Vec::new();
        core::mem::swap(&mut entries, &mut self.entries);
        remove_key(&mut entries, key);
        core::mem::swap(&mut entries, &mut self.entries);
        Ok(())
    }

    /// Also: an open instance always answers `Ok`.
    fn key_exists(&self, key: &str) -> (r: Result<bool, AgentDbError>)
        ensures
            self.is_open() ==> r is Ok,
    {
        proof {
            use_type_invariant(self);
        }
        if !self.open {
            return Err(AgentDbError::Connection("instance is closed".to_owned()));
        }
        match lookup(&self.entries, key) {
            Some(_) => Ok(true),
            None => Ok(false),
        }
    }

    /// Also: this backend interprets no query grammar at all, so an open
    /// instance always rejects with `Unsupported`; nothing changes.
    fn query(&mut self, query: &str, _params: Vec<Value>) -> (r: Result<
        QueryResult,
        AgentDbError,
    >)
        ensures
            final(self).tx_active() == old(self).tx_active(),
            final(self).db_map() == old(self).db_map(),
            old(self).is_open() ==> r is Err && r->Err_0 is Unsupported,
    {
        proof {
            use_type_invariant(&*self);
        }
        if !self.open {
            return Err(AgentDbError::Connection("instance is closed".to_owned()));
        }
        Err(AgentDbError::Unsupported("query".to_owned()))
    }

    /// Also: an open instance always answers `Ok`, and the returned keys are
    /// pairwise distinct.
    fn scan(&self, prefix: &str) -> (r: Result<ScanResult, AgentDbError>)
        ensures
            self.is_open() ==> r is Ok,
            r matches Ok(sr) ==> forall|x: int, y: int|
                0 <= x < y < sr.keys@.len() ==> sr.keys@[x]@ != sr.keys@[y]@,
    {
        proof {
            use_type_invariant(self);
        }
        if !self.open {
            return Err(AgentDbError::Connection("instance is closed".to_owned()));
        }
        let keys = scan_keys(&self.entries, prefix);
        proof {
            assert forall|k: Seq<char>| #[trigger] appears(keys@, k) <==> (
            self.db_map().contains_key(k) && prefix@.is_prefix_of(k)) by {
                if appears(keys@, k) {
                    let x = choose|x: int| 0 <= x < keys@.len() && keys@[x]@ == k;
                    assert(self.db_map().contains_key(keys@[x]@));
                }
            }
        }
        Ok(ScanResult::new(keys))
    }

    /// Also: with transactions advertised, `begin` on an open instance
    /// succeeds exactly when no transaction is already active, hands back a
    /// handle whose snapshot is the current map, and raises the transaction
    /// flag; a second `begin` before commit or rollback fails with
    /// `Transaction`.
    fn begin(&mut self) -> (r: Result<MemoryTransaction, AgentDbError>)
        ensures
            old(self).is_open() && old(self).caps_spec().transactions && old(self).tx_active()
                ==> r is Err && r->Err_0 is Transaction,
            old(self).is_open() && old(self).caps_spec().transactions && !old(self).tx_active()
                ==> r is Ok,
            r matches Ok(tx) ==> tx.saved_map() == old(self).db_map() && final(self).tx_active(),
            r is Err ==> final(self).tx_active() == old(self).tx_active(),
    {
        proof {
            use_type_invariant(&*self);
        }
        if !self.open {
            return Err(AgentDbError::Connection("instance is closed".to_owned()));
        }
        if !self.caps.transactions {
            return Err(AgentDbError::Unsupported("transactions".to_owned()));
        }
        if self.in_tx {
            return Err(AgentDbError::Transaction("a transaction is already active".to_owned()));
        }
        let snapshot = clone_entries(&self.entries);
        proof {
            lemma_views_match(self.entries@, snapshot@);
        }
        self.in_tx = true;
        Ok(MemoryTransaction { snapshot })
    }

    /// Also: `close` always succeeds, keeps the stored map, and is safe to
    /// repeat.
    fn close(&mut self) -> (r: Result<(), AgentDbError>)
        ensures
            r is Ok,
            final(self).db_map() == old(self).db_map(),
            final(self).tx_active() == old(self).tx_active(),
    {
        proof {
            use_type_invariant(&*self);
        }
        self.open = false;
        Ok(())
    }
}

impl Transaction for MemoryTransaction {
    type Db = MemoryBackend;

    /// Keeps everything done since `begin` and lowers the transaction flag.
    /// `commit` fails with `Connection` on a closed instance and with
    /// `Transaction` when no transaction is active; either way nothing
    /// changes except that a success lowers the flag.
    fn commit(self, db: &mut MemoryBackend) -> (r: Result<(), AgentDbError>)
        ensures
            final(db).family_spec() == old(db).family_spec(),
            final(db).caps_spec() == old(db).caps_spec(),
            final(db).is_open() == old(db).is_open(),
            final(db).db_map() == old(db).db_map(),
            !old(db).is_open() ==> r is Err && r->Err_0 is Connection,
            old(db).is_open() && !old(db).tx_active() ==> r is Err && r->Err_0 is Transaction,
            old(db).is_open() && old(db).tx_active() ==> r is Ok,
            r is Ok ==> !final(db).tx_active(),
            r is Err ==> final(db).tx_active() == old(db).tx_active(),
    {
        proof {
            use_type_invariant(&*db);
        }
        if !db.open {
            return Err(AgentDbError::Connection("instance is closed".to_owned()));
        }
        if !db.in_tx {
            return Err(AgentDbError::Transaction("no active transaction".to_owned()));
        }
        db.in_tx = false;
        Ok(())
    }

    /// Reinstates the snapshot taken at `begin` and lowers the transaction
    /// flag. Failure cases are as for `commit`; on failure nothing changes.
    fn rollback(self, db: &mut MemoryBackend) -> (r: Result<(), AgentDbError>)
        ensures
            final(db).family_spec() == old(db).family_spec(),
            final(db).caps_spec() == old(db).caps_spec(),
            final(db).is_open() == old(db).is_open(),
            !old(db).is_open() ==> r is Err && r->Err_0 is Connection,
            old(db).is_open() && !old(db).tx_active() ==> r is Err && r->Err_0 is Transaction,
            old(db).is_open() && old(db).tx_active() ==> r is Ok,
            r is Ok ==> final(db).db_map() == self.saved_map() && !final(db).tx_active(),
            r is Err ==> final(db).db_map() == old(db).db_map() && final(db).tx_active() == old(
                db,
            ).tx_active(),
    {
        proof {
            use_type_invariant(&self);
            use_type_invariant(&*db);
        }
        if !db.open {
            return Err(AgentDbError::Connection("instance is closed".to_owned()));
        }
        if !db.in_tx {
            return Err(AgentDbError::Transaction("no active transaction".to_owned()));
        }
        let MemoryTransaction { snapshot } = self;
        db.entries = snapshot;
        db.in_tx = false;
        Ok(())
    }
}

} // verus!
