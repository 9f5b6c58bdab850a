//! Laws that relate several operations of the [`crate::AgentDB`] contract.
//!
//! Each operation's own `ensures` pins its effect on the abstract stored map
//! (`db_map`); these lemmas state what chains of such effects amount to, so
//! a caller can conclude, for example, what a `get` after a `put` returns.

use vstd::prelude::*;

verus! {

/// Existence round-trip: storing `v` under `k` and then reading `k` yields
/// exactly `v`, byte for byte, whatever the store held before. Together with
/// `put`'s ensures (a success makes the map `m.insert(k, v)`) and `get`'s
/// (a success answers exactly from the map), this is the round-trip law for
/// every backend honoring the contract.
pub proof fn lemma_put_get_round_trip(m: Map<Seq<char>, Seq<u8>>, k: Seq<char>, v: Seq<u8>)
    ensures
        m.insert(k, v).contains_key(k),
        m.insert(k, v)[k] == v,
{
}

/// A stored key does not disturb its neighbors: reading any other key after
/// a `put` sees what it saw before.
pub proof fn lemma_put_preserves_others(
    m: Map<Seq<char>, Seq<u8>>,
    k: Seq<char>,
    v: Seq<u8>,
    other: Seq<char>,
)
    requires
        other != k,
    ensures
        m.insert(k, v).contains_key(other) == m.contains_key(other),
        m.contains_key(other) ==> m.insert(k, v)[other] == m[other],
{
}

/// Delete idempotence: deleting a key twice leaves exactly the store that
/// deleting it once leaves. Together with `delete`'s ensures (a success
/// makes the map `m.remove(k)`, and removing an absent key succeeds), both
/// calls succeed on an open store and the second changes nothing.
pub proof fn lemma_delete_idempotent(m: Map<Seq<char>, Seq<u8>>, k: Seq<char>)
    ensures
        m.remove(k).remove(k) == m.remove(k),
        !m.remove(k).contains_key(k),
{
    assert(m.remove(k).remove(k) =~= m.remove(k));
}

/// Absence is not an error, in the model: a fresh store contains no key at
/// all, so `get`'s contract forces `Ok(None)`, never an error, for any key
/// on a fresh open backend.
pub proof fn lemma_fresh_store_has_nothing(k: Seq<char>)
    ensures
        !Map::<Seq<char>, Seq<u8>>::empty().contains_key(k),
{
}

} // verus!
