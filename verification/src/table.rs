//! Small tables kept as vectors: a sequence of rows with pairwise different
//! keys, read as a map from key to value.

use vstd::prelude::*;

verus! {

/// No two rows of `s` have the same key.
pub open spec fn distinct_keys<T, K>(s: Seq<T>, key: spec_fn(T) -> K) -> bool {
    forall|i: int, j: int| 0 <= i < j < s.len() ==> key(#[trigger] s[i]) != key(#[trigger] s[j])
}

/// Some row of `s` has the key `k`.
pub open spec fn has_key<T, K>(s: Seq<T>, key: spec_fn(T) -> K, k: K) -> bool {
    exists|i: int| 0 <= i < s.len() && key(#[trigger] s[i]) == k
}

/// The index of a row with key `k`.
pub open spec fn index_of_key<T, K>(s: Seq<T>, key: spec_fn(T) -> K, k: K) -> int {
    choose|i: int| 0 <= i < s.len() && key(#[trigger] s[i]) == k
}

/// The map that the rows of `s` spell.
pub open spec fn table<T, K>(s: Seq<T>, key: spec_fn(T) -> K) -> Map<K, T> {
    Map::new(|k: K| has_key(s, key, k), |k: K| s[index_of_key(s, key, k)])
}

/// A row is found under its key.
pub proof fn lemma_table_at<T, K>(s: Seq<T>, key: spec_fn(T) -> K, i: int)
    requires
        distinct_keys(s, key),
        0 <= i < s.len(),
    ensures
        table(s, key).dom().contains(key(s[i])),
        table(s, key)[key(s[i])] == s[i],
{
    let k = key(s[i]);
    assert(has_key(s, key, k));
    let j = index_of_key(s, key, k);
    assert(j == i);
}

/// A key that no row has is not in the map.
pub proof fn lemma_table_absent<T, K>(s: Seq<T>, key: spec_fn(T) -> K, k: K)
    requires
        forall|i: int| 0 <= i < s.len() ==> key(#[trigger] s[i]) != k,
    ensures
        !table(s, key).dom().contains(k),
{
}

/// Appending a row with a new key inserts it.
pub proof fn lemma_table_push<T, K>(s: Seq<T>, key: spec_fn(T) -> K, x: T)
    requires
        distinct_keys(s, key),
        forall|i: int| 0 <= i < s.len() ==> key(#[trigger] s[i]) != key(x),
    ensures
        distinct_keys(s.push(x), key),
        table(s.push(x), key) == table(s, key).insert(key(x), x),
{
    let t = s.push(x);
    assert forall|k: K| #[trigger] table(t, key).dom().contains(k) == table(s, key).insert(
        key(x),
        x,
    ).dom().contains(k) by {
        if has_key(s, key, k) {
            let i = index_of_key(s, key, k);
            assert(key(t[i]) == k);
        }
        if k == key(x) {
            assert(key(t[s.len() as int]) == k);
        }
        if has_key(t, key, k) {
            let i = index_of_key(t, key, k);
            if i < s.len() {
                assert(key(s[i]) == k);
            }
        }
    }
    assert forall|k: K| table(t, key).dom().contains(k) implies #[trigger] table(t, key)[k]
        == table(s, key).insert(key(x), x)[k] by {
        let i = index_of_key(t, key, k);
        if i < s.len() {
            assert(key(s[i]) == k);
            lemma_table_at(s, key, i);
        }
    }
    assert(table(t, key) =~= table(s, key).insert(key(x), x));
}

/// Replacing a row by one with the same key overwrites it.
pub proof fn lemma_table_update<T, K>(s: Seq<T>, key: spec_fn(T) -> K, i: int, x: T)
    requires
        distinct_keys(s, key),
        0 <= i < s.len(),
        key(x) == key(s[i]),
    ensures
        distinct_keys(s.update(i, x), key),
        table(s.update(i, x), key) == table(s, key).insert(key(x), x),
{
    let t = s.update(i, x);
    assert forall|a: int, b: int| 0 <= a < b < t.len() implies key(#[trigger] t[a]) != key(
        #[trigger] t[b],
    ) by {
        assert(key(t[a]) == key(s[a]));
        assert(key(t[b]) == key(s[b]));
    }
    assert forall|k: K| #[trigger] table(t, key).dom().contains(k) == table(s, key).insert(
        key(x),
        x,
    ).dom().contains(k) by {
        if has_key(s, key, k) {
            let j = index_of_key(s, key, k);
            assert(key(t[j]) == key(s[j]));
        }
        if has_key(t, key, k) {
            let j = index_of_key(t, key, k);
            assert(key(t[j]) == key(s[j]));
        }
        if k == key(x) {
            assert(key(t[i]) == k);
        }
    }
    assert forall|k: K| table(t, key).dom().contains(k) implies #[trigger] table(t, key)[k]
        == table(s, key).insert(key(x), x)[k] by {
        let j = index_of_key(t, key, k);
        lemma_table_at(t, key, j);
        if j != i {
            assert(key(s[j]) == k);
            lemma_table_at(s, key, j);
        }
    }
    assert(table(t, key) =~= table(s, key).insert(key(x), x));
}

/// Taking a row out removes its key.
pub proof fn lemma_table_remove<T, K>(s: Seq<T>, key: spec_fn(T) -> K, i: int)
    requires
        distinct_keys(s, key),
        0 <= i < s.len(),
    ensures
        distinct_keys(s.remove(i), key),
        table(s.remove(i), key) == table(s, key).remove(key(s[i])),
{
    let t = s.remove(i);
    let at = |j: int| if j < i { j } else { j + 1 };
    assert forall|a: int| 0 <= a < t.len() implies #[trigger] t[a] == s[at(a)] by {}
    assert forall|a: int, b: int| 0 <= a < b < t.len() implies key(#[trigger] t[a]) != key(
        #[trigger] t[b],
    ) by {
        assert(t[a] == s[at(a)]);
        assert(t[b] == s[at(b)]);
    }
    assert forall|k: K| #[trigger] table(t, key).dom().contains(k) == table(s, key).remove(
        key(s[i]),
    ).dom().contains(k) by {
        if has_key(t, key, k) {
            let j = index_of_key(t, key, k);
            assert(t[j] == s[at(j)]);
            assert(key(s[at(j)]) == k);
        }
        if has_key(s, key, k) && k != key(s[i]) {
            let j = index_of_key(s, key, k);
            let b = if j < i { j } else { j - 1 };
            assert(t[b] == s[at(b)]);
            assert(key(t[b]) == k);
        }
    }
    assert forall|k: K| table(t, key).dom().contains(k) implies #[trigger] table(t, key)[k]
        == table(s, key).remove(key(s[i]))[k] by {
        let j = index_of_key(t, key, k);
        lemma_table_at(t, key, j);
        assert(t[j] == s[at(j)]);
        lemma_table_at(s, key, at(j));
    }
    assert(table(t, key) =~= table(s, key).remove(key(s[i])));
}

} // verus!
