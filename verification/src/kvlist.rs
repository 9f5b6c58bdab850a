//! A small verified association list from string keys to [`Value`]s, viewed
//! abstractly as a `Map<Seq<char>, Seq<u8>>`. It backs both query rows and
//! the in-memory backend.

use vstd::prelude::*;
use vstd::map::*;
use vstd::string::StrSliceExecFns;
use crate::Value;

verus! {

/// No two entries share a key.
pub open spec fn keys_unique(s: Seq<(String, Value)>) -> bool {
    forall|i: int, j: int| 0 <= i < j < s.len() ==> s[i].0@ != s[j].0@
}

/// Some entry carries key `k`.
pub open spec fn has_key(s: Seq<(String, Value)>, k: Seq<char>) -> bool {
    exists|i: int| 0 <= i < s.len() && s[i].0@ == k
}

/// The index of the entry carrying key `k` (meaningful when `has_key` holds
/// and the keys are unique).
pub open spec fn key_index(s: Seq<(String, Value)>, k: Seq<char>) -> int {
    choose|i: int| 0 <= i < s.len() && s[i].0@ == k
}

/// The list read as a finite map from key characters to value bytes.
pub open spec fn kv_map(s: Seq<(String, Value)>) -> Map<Seq<char>, Seq<u8>> {
    Map::new(|k: Seq<char>| has_key(s, k), |k: Seq<char>| s[key_index(s, k)].1@)
}

/// Some entry among the first `n` carries key `k`.
pub open spec fn key_in_first(s: Seq<(String, Value)>, n: int, k: Seq<char>) -> bool {
    exists|j: int| 0 <= j < n && s[j].0@ == k
}

/// Key `k` occurs in the list of keys.
pub open spec fn appears(keys: Seq<String>, k: Seq<char>) -> bool {
    exists|x: int| 0 <= x < keys.len() && keys[x]@ == k
}

/// A key among the first `n` entries is among the first `m >= n` as well.
proof fn lemma_key_in_first_widen(s: Seq<(String, Value)>, n: int, m: int, k: Seq<char>)
    requires
        key_in_first(s, n, k),
        n <= m,
    ensures
        key_in_first(s, m, k),
{
    let j = choose|j: int| 0 <= j < n && s[j].0@ == k;
    assert(0 <= j < m && s[j].0@ == k);
}

/// A key that occurs still occurs after another key is appended.
proof fn lemma_appears_push(keys: Seq<String>, p: String, k: Seq<char>)
    requires
        appears(keys, k),
    ensures
        appears(keys.push(p), k),
{
    let x = choose|x: int| 0 <= x < keys.len() && keys[x]@ == k;
    assert(keys.push(p)[x]@ == k);
}

/// With unique keys, the entry at `i` is the one `key_index` finds for its key.
pub proof fn lemma_key_index_is(s: Seq<(String, Value)>, i: int)
    requires
        keys_unique(s),
        0 <= i < s.len(),
    ensures
        has_key(s, s[i].0@),
        key_index(s, s[i].0@) == i,
{
    let k = s[i].0@;
    assert(has_key(s, k));
    let j = key_index(s, k);
    if j < i {
        assert(s[j].0@ != s[i].0@);
    } else if j > i {
        assert(s[i].0@ != s[j].0@);
    }
}

/// Two lists whose entries agree key-for-key and byte-for-byte denote the
/// same map.
pub proof fn lemma_views_match(a: Seq<(String, Value)>, b: Seq<(String, Value)>)
    requires
        keys_unique(a),
        a.len() == b.len(),
        forall|i: int| 0 <= i < a.len() ==> a[i].0@ == b[i].0@ && a[i].1@ == b[i].1@,
    ensures
        keys_unique(b),
        kv_map(a) == kv_map(b),
{
    assert forall|i: int, j: int| 0 <= i < j < b.len() implies b[i].0@ != b[j].0@ by {
        assert(a[i].0@ != a[j].0@);
    }
    assert forall|k: Seq<char>| has_key(a, k) == has_key(b, k) by {
        if has_key(a, k) {
            let i = choose|i: int| 0 <= i < a.len() && a[i].0@ == k;
            assert(b[i].0@ == k);
        }
        if has_key(b, k) {
            let i = choose|i: int| 0 <= i < b.len() && b[i].0@ == k;
            assert(a[i].0@ == k);
        }
    }
    assert forall|k: Seq<char>| has_key(a, k) implies kv_map(a)[k] == kv_map(b)[k] by {
        let ib = key_index(b, k);
        assert(0 <= ib < b.len() && b[ib].0@ == k);
        assert(a[ib].0@ == k);
        lemma_key_index_is(a, ib);
        assert(key_index(a, k) == ib);
    }
    assert(kv_map(a) =~= kv_map(b));
}

/// Removing the entry at `i` removes exactly its key from the map.
pub proof fn lemma_remove_at(s: Seq<(String, Value)>, i: int)
    requires
        keys_unique(s),
        0 <= i < s.len(),
    ensures
        keys_unique(s.remove(i)),
        kv_map(s.remove(i)) == kv_map(s).remove(s[i].0@),
        !has_key(s.remove(i), s[i].0@),
{
    let t = s.remove(i);
    let k0 = s[i].0@;
    s.remove_ensures(i);
    assert forall|j: int| 0 <= j < t.len() implies t[j] == (if j < i {
        s[j]
    } else {
        s[j + 1]
    }) by {}
    assert forall|p: int, q: int| 0 <= p < q < t.len() implies t[p].0@ != t[q].0@ by {
        let p0 = if p < i { p } else { p + 1 };
        let q0 = if q < i { q } else { q + 1 };
        assert(s[p0].0@ != s[q0].0@);
    }
    assert forall|j: int| 0 <= j < t.len() implies t[j].0@ != k0 by {
        let j0 = if j < i { j } else { j + 1 };
        if j0 < i {
            assert(s[j0].0@ != s[i].0@);
        } else {
            assert(s[i].0@ != s[j0].0@);
        }
    }
    assert(!has_key(t, k0));
    assert forall|k: Seq<char>| has_key(t, k) implies has_key(s, k) && k != k0 by {
        let j = choose|j: int| 0 <= j < t.len() && t[j].0@ == k;
        let j0 = if j < i { j } else { j + 1 };
        assert(s[j0].0@ == k);
    }
    assert forall|k: Seq<char>| has_key(s, k) && k != k0 implies has_key(t, k) by {
        let j = choose|j: int| 0 <= j < s.len() && s[j].0@ == k;
        lemma_key_index_is(s, j);
        lemma_key_index_is(s, i);
        assert(j != i);
        let jt = if j < i { j } else { j - 1 };
        assert(t[jt].0@ == k);
    }
    assert forall|k: Seq<char>| has_key(t, k) implies kv_map(t)[k] == kv_map(s)[k] by {
        let jt = key_index(t, k);
        assert(0 <= jt < t.len() && t[jt].0@ == k);
        let j0 = if jt < i { jt } else { jt + 1 };
        assert(s[j0].0@ == k);
        lemma_key_index_is(s, j0);
        lemma_key_index_is(t, jt);
        assert(kv_map(t)[k] == t[jt].1@);
        assert(kv_map(s)[k] == s[j0].1@);
    }
    assert(kv_map(t) =~= kv_map(s).remove(k0));
}

/// Appending an entry whose key is fresh adds exactly that binding.
pub proof fn lemma_push_new(s: Seq<(String, Value)>, p: (String, Value))
    requires
        keys_unique(s),
        !has_key(s, p.0@),
    ensures
        keys_unique(s.push(p)),
        kv_map(s.push(p)) == kv_map(s).insert(p.0@, p.1@),
{
    let t = s.push(p);
    let n = s.len() as int;
    assert forall|i: int, j: int| 0 <= i < j < t.len() implies t[i].0@ != t[j].0@ by {
        if j < n {
            assert(s[i].0@ != s[j].0@);
        } else {
            assert(t[j] == p);
            assert(s[i].0@ != p.0@);
        }
    }
    assert forall|k: Seq<char>| has_key(t, k) implies has_key(s, k) || k == p.0@ by {
        let j = choose|j: int| 0 <= j < t.len() && t[j].0@ == k;
        if j < n {
            assert(s[j].0@ == k);
        }
    }
    assert(t[n].0@ == p.0@);
    assert(has_key(t, p.0@));
    assert forall|k: Seq<char>| has_key(s, k) implies has_key(t, k) by {
        let j = choose|j: int| 0 <= j < s.len() && s[j].0@ == k;
        assert(t[j].0@ == k);
    }
    lemma_key_index_is(t, n);
    assert(kv_map(t)[p.0@] == p.1@);
    assert forall|k: Seq<char>| has_key(s, k) && k != p.0@ implies kv_map(t)[k] == kv_map(s)[k] by {
        let j = key_index(s, k);
        assert(0 <= j < s.len() && s[j].0@ == k);
        assert(t[j].0@ == k);
        lemma_key_index_is(t, j);
        assert(kv_map(t)[k] == t[j].1@);
    }
    assert(kv_map(t) =~= kv_map(s).insert(p.0@, p.1@));
}

/// Character-for-character string equality.
pub(crate) fn str_eq(a: &str, b: &str) -> (r: bool)
    ensures
        r == (a@ == b@),
{
    let aa: String = a.to_owned();
    let bb: String = b.to_owned();
    aa == bb
}

/// Whether `p` is a prefix of `s`, character for character.
pub(crate) fn str_starts_with(s: &str, p: &str) -> (r: bool)
    ensures
        r == p@.is_prefix_of(s@),
{
    let sl: usize = s.unicode_len();
    let pl: usize = p.unicode_len();
    if pl > sl {
        return false;
    }
    let mut i: usize = 0;
    while i < pl
        invariant
            0 <= i <= pl,
            pl <= sl,
            pl == p@.len(),
            sl == s@.len(),
            forall|j: int| 0 <= j < i ==> p@[j] == s@[j],
        decreases pl - i,
    {
        let pc = p.get_char(i);
        let sc = s.get_char(i);
        if pc != sc {
            proof {
                let sub = s@.subrange(0, p@.len() as int);
                assert(sub[i as int] == s@[i as int]);
                assert(!p@.is_prefix_of(s@));
            }
            return false;
        }
        i += 1;
    }
    proof {
        assert(p@ =~= s@.subrange(0, p@.len() as int));
    }
    true
}

/// The index of the entry carrying `key`, if any.
pub(crate) fn find_key(entries: &Vec<(String, Value)>, key: &str) -> (r: Option<usize>)
    ensures
        r matches Some(i) ==> i < entries@.len() && entries@[i as int].0@ == key@,
        r is None ==> !has_key(entries@, key@),
{
    let mut i: usize = 0;
    while i < entries.len()
        invariant
            0 <= i <= entries@.len(),
            forall|j: int| 0 <= j < i ==> entries@[j].0@ != key@,
        decreases entries@.len() - i,
    {
        if str_eq(entries[i].0.as_str(), key) {
            return Some(i);
        }
        i += 1;
    }
    None
}

/// Remove the entry carrying `key`, if any; the map loses exactly that
/// binding (and is unchanged when the key is absent).
pub(crate) fn remove_key(entries: &mut Vec<(String, Value)>, key: &str)
    requires
        keys_unique(old(entries)@),
    ensures
        keys_unique(final(entries)@),
        kv_map(final(entries)@) == kv_map(old(entries)@).remove(key@),
        !has_key(final(entries)@, key@),
{
    match find_key(entries, key) {
        Some(i) => {
            proof {
                lemma_remove_at(entries@, i as int);
            }
            entries.remove(i);
        },
        None => {
            proof {
                assert(!kv_map(entries@).contains_key(key@));
                assert(kv_map(entries@) =~= kv_map(entries@).remove(key@));
            }
        },
    }
}

/// Insert or replace the binding for `key`.
pub(crate) fn upsert(entries: &mut Vec<(String, Value)>, key: &str, value: Value)
    requires
        keys_unique(old(entries)@),
    ensures
        keys_unique(final(entries)@),
        kv_map(final(entries)@) == kv_map(old(entries)@).insert(key@, value@),
{
    remove_key(entries, key);
    let owned: String = key.to_owned();
    let ghost mid = entries@;
    let ghost v = value@;
    entries.push((owned, value));
    proof {
        let p = entries@.last();
        assert(entries@ == mid.push(p));
        assert(p.0@ == key@ && p.1@ == v);
        lemma_push_new(mid, p);
        assert(kv_map(entries@) =~= kv_map(old(entries)@).insert(key@, v));
    }
}

/// Borrow the value bound to `key`, if any.
pub(crate) fn lookup<'a>(entries: &'a Vec<(String, Value)>, key: &str) -> (r: Option<&'a Value>)
    requires
        keys_unique(entries@),
    ensures
        r matches Some(v) ==> kv_map(entries@).contains_key(key@) && v@ == kv_map(entries@)[key@],
        r is None ==> !kv_map(entries@).contains_key(key@),
{
    match find_key(entries, key) {
        Some(i) => {
            proof {
                lemma_key_index_is(entries@, i as int);
            }
            Some(&entries[i].1)
        },
        None => None,
    }
}

/// Copy a list of entries, key for key and byte for byte.
pub(crate) fn clone_entries(entries: &Vec<(String, Value)>) -> (r: Vec<(String, Value)>)
    ensures
        r@.len() == entries@.len(),
        forall|i: int|
            0 <= i < entries@.len() ==> (#[trigger] r@[i]).0@ == entries@[i].0@ && r@[i].1@
                == entries@[i].1@,
{
    let n = entries.len();
    let mut out: Vec<(String, Value)> = Vec::new();
    let mut i: usize = 0;
    while i < n
        invariant
            0 <= i <= n,
            n == entries@.len(),
            out@.len() == i,
            forall|j: int|
                0 <= j < i ==> (#[trigger] out@[j]).0@ == entries@[j].0@ && out@[j].1@
                    == entries@[j].1@,
        decreases n - i,
    {
        let k: String = entries[i].0.clone();
        let v: Value = Value::from_slice(entries[i].1.as_bytes());
        out.push((k, v));
        i += 1;
    }
    out
}

/// Collect every key that `prefix` starts: each exactly once, in list order.
pub(crate) fn scan_keys(entries: &Vec<(String, Value)>, prefix: &str) -> (r: Vec<String>)
    requires
        keys_unique(entries@),
    ensures
        forall|x: int, y: int| 0 <= x < y < r@.len() ==> r@[x]@ != r@[y]@,
        forall|x: int| 0 <= x < r@.len()
            ==> kv_map(entries@).contains_key(#[trigger] r@[x]@) && prefix@.is_prefix_of(r@[x]@),
        forall|k: Seq<char>|
            kv_map(entries@).contains_key(k) && prefix@.is_prefix_of(k) ==> appears(r@, k),
{
    let n = entries.len();
    let mut out: Vec<String> = Vec::new();
    let mut i: usize = 0;
    while i < n
        invariant
            0 <= i <= n,
            n == entries@.len(),
            keys_unique(entries@),
            forall|m: int| 0 <= m < out@.len()
                ==> key_in_first(entries@, i as int, #[trigger] out@[m]@),
            forall|m: int| 0 <= m < out@.len() ==> prefix@.is_prefix_of(#[trigger] out@[m]@),
            forall|j: int|
                0 <= j < i && prefix@.is_prefix_of(#[trigger] entries@[j].0@)
                    ==> appears(out@, entries@[j].0@),
            forall|x: int, y: int| 0 <= x < y < out@.len() ==> out@[x]@ != out@[y]@,
        decreases n - i,
    {
        let ghost pre = out@;
        let hit = str_starts_with(entries[i].0.as_str(), prefix);
        if hit {
            let k: String = entries[i].0.clone();
            out.push(k);
        }
        proof {
            if hit {
                assert(out@ == pre.push(out@.last()));
                assert(out@.last()@ == entries@[i as int].0@);
                assert forall|x: int, y: int| 0 <= x < y < out@.len() implies out@[x]@
                    != out@[y]@ by {
                    if y == out@.len() - 1 {
                        assert(key_in_first(entries@, i as int, pre[x]@));
                        let j = choose|j: int| 0 <= j < i && entries@[j].0@ == pre[x]@;
                        assert(entries@[j].0@ != entries@[i as int].0@);
                    } else {
                        assert(pre[x]@ != pre[y]@);
                    }
                }
            }
            assert forall|m: int| 0 <= m < out@.len() implies key_in_first(
                entries@,
                i + 1,
                #[trigger] out@[m]@,
            ) by {
                if m < pre.len() {
                    lemma_key_in_first_widen(entries@, i as int, i + 1, out@[m]@);
                } else {
                    assert(0 <= i < i + 1 && entries@[i as int].0@ == out@[m]@);
                }
            }
            assert forall|j: int|
                0 <= j < i + 1 && prefix@.is_prefix_of(#[trigger] entries@[j].0@) implies appears(
                out@,
                entries@[j].0@,
            ) by {
                if j < i {
                    if hit {
                        lemma_appears_push(pre, out@.last(), entries@[j].0@);
                    }
                } else {
                    assert(hit);
                    assert(out@[out@.len() - 1]@ == entries@[j].0@);
                }
            }
        }
        i += 1;
    }
    proof {
        assert forall|k: Seq<char>|
            kv_map(entries@).contains_key(k) && prefix@.is_prefix_of(k) implies appears(
            out@,
            k,
        ) by {
            let j = choose|j: int| 0 <= j < entries@.len() && entries@[j].0@ == k;
            assert(prefix@.is_prefix_of(entries@[j].0@));
        }
        assert forall|x: int| 0 <= x < out@.len() implies kv_map(entries@).contains_key(
            #[trigger] out@[x]@,
        ) && prefix@.is_prefix_of(out@[x]@) by {
            assert(key_in_first(entries@, entries@.len() as int, out@[x]@));
            let j = choose|j: int| 0 <= j < entries@.len() && entries@[j].0@ == out@[x]@;
            assert(has_key(entries@, out@[x]@));
        }
    }
    out
}

} // verus!
