//! A vector of items that each carry a key, read as a map from key to item.
use vstd::prelude::*;

verus! {

/// An item that is stored under a textual key.
pub trait Keyed {
    spec fn key(&self) -> Seq<char>;
}

/// The map that inserting each item of `s` in turn builds: a later item
/// replaces an earlier one with the same key.
pub open spec fn keyed_map<T: Keyed>(s: Seq<T>) -> Map<Seq<char>, T>
    decreases s.len(),
{
    if s.len() == 0 {
        Map::empty()
    } else {
        keyed_map(s.drop_last()).insert(s.last().key(), s.last())
    }
}

/// No two items of `s` share a key.
pub open spec fn keys_unique<T: Keyed>(s: Seq<T>) -> bool {
    forall|i: int, j: int| 0 <= i < j < s.len() ==> (#[trigger] s[i]).key() != (#[trigger] s[j]).key()
}

pub proof fn lemma_keyed_domain<T: Keyed>(s: Seq<T>, k: Seq<char>)
    ensures
        keyed_map(s).contains_key(k) <==> exists|i: int| 0 <= i < s.len() && (#[trigger] s[i]).key() == k,
    decreases s.len(),
{
    if s.len() > 0 {
        let s0 = s.drop_last();
        lemma_keyed_domain(s0, k);
        if keyed_map(s0).contains_key(k) {
            let i = choose|i: int| 0 <= i < s0.len() && (#[trigger] s0[i]).key() == k;
            assert(s[i] == s0[i]);
        }
        if exists|i: int| 0 <= i < s.len() && (#[trigger] s[i]).key() == k {
            let i = choose|i: int| 0 <= i < s.len() && (#[trigger] s[i]).key() == k;
            if i < s.len() - 1 {
                assert(s0[i] == s[i]);
            }
        }
    }
}

pub proof fn lemma_keyed_index<T: Keyed>(s: Seq<T>, i: int)
    requires
        keys_unique(s),
        0 <= i < s.len(),
    ensures
        keyed_map(s).contains_key(s[i].key()),
        keyed_map(s)[s[i].key()] == s[i],
    decreases s.len(),
{
    let s0 = s.drop_last();
    if i < s.len() - 1 {
        assert(keys_unique(s0)) by {
            assert forall|a: int, b: int| 0 <= a < b < s0.len() implies (#[trigger] s0[a]).key()
                != (#[trigger] s0[b]).key() by {
                assert(s0[a] == s[a] && s0[b] == s[b]);
            }
        }
        assert(s0[i] == s[i]);
        lemma_keyed_index(s0, i);
        assert(s[i].key() != s[s.len() - 1].key());
    }
}

pub proof fn lemma_keyed_push<T: Keyed>(s: Seq<T>, x: T)
    requires
        keys_unique(s),
        !keyed_map(s).contains_key(x.key()),
    ensures
        keyed_map(s.push(x)) == keyed_map(s).insert(x.key(), x),
        keys_unique(s.push(x)),
{
    assert(s.push(x).drop_last() =~= s);
    assert forall|a: int, b: int| 0 <= a < b < s.push(x).len() implies (#[trigger] s.push(
        x,
    )[a]).key() != (#[trigger] s.push(x)[b]).key() by {
        if b == s.len() {
            lemma_keyed_index(s, a);
        }
    }
}

pub proof fn lemma_keyed_update<T: Keyed>(s: Seq<T>, i: int, x: T)
    requires
        keys_unique(s),
        0 <= i < s.len(),
        x.key() == s[i].key(),
    ensures
        keyed_map(s.update(i, x)) == keyed_map(s).insert(x.key(), x),
        keys_unique(s.update(i, x)),
{
    let t = s.update(i, x);
    assert forall|a: int, b: int| 0 <= a < b < t.len() implies (#[trigger] t[a]).key() != (
    #[trigger] t[b]).key() by {
        assert(t[a].key() == s[a].key());
        assert(t[b].key() == s[b].key());
    }
    assert forall|k: Seq<char>| #[trigger]
        keyed_map(t).contains_key(k) == keyed_map(s).insert(x.key(), x).contains_key(k) by {
        lemma_keyed_domain(t, k);
        lemma_keyed_domain(s, k);
        if exists|j: int| 0 <= j < s.len() && (#[trigger] s[j]).key() == k {
            let j = choose|j: int| 0 <= j < s.len() && (#[trigger] s[j]).key() == k;
            assert(t[j].key() == k);
        }
        if exists|j: int| 0 <= j < t.len() && (#[trigger] t[j]).key() == k {
            let j = choose|j: int| 0 <= j < t.len() && (#[trigger] t[j]).key() == k;
            assert(s[j].key() == k);
        }
    }
    assert forall|k: Seq<char>| #[trigger] keyed_map(t).contains_key(k) implies keyed_map(t)[k]
        == keyed_map(s).insert(x.key(), x)[k] by {
        lemma_keyed_domain(t, k);
        let j = choose|j: int| 0 <= j < t.len() && (#[trigger] t[j]).key() == k;
        lemma_keyed_index(t, j);
        if j != i {
            lemma_keyed_index(s, j);
            assert(s[j] == t[j]);
        }
    }
    assert(keyed_map(t) =~= keyed_map(s).insert(x.key(), x));
}

/// The map holds the last item of a key.
pub proof fn lemma_keyed_last<T: Keyed>(s: Seq<T>, j: int)
    requires
        0 <= j < s.len(),
        forall|l: int| j < l < s.len() ==> (#[trigger] s[l]).key() != s[j].key(),
    ensures
        keyed_map(s).contains_key(s[j].key()),
        keyed_map(s)[s[j].key()] == s[j],
    decreases s.len(),
{
    if j < s.len() - 1 {
        let s0 = s.drop_last();
        assert(s0[j] == s[j]);
        assert forall|l: int| j < l < s0.len() implies (#[trigger] s0[l]).key() != s0[j].key() by {
            assert(s0[l] == s[l]);
        }
        lemma_keyed_last(s0, j);
        assert(s[s.len() - 1].key() != s[j].key());
    }
}

/// No item carries the key `k`, so the map has no entry for it.
pub proof fn lemma_keyed_absent<T: Keyed>(s: Seq<T>, k: Seq<char>)
    requires
        forall|i: int| 0 <= i < s.len() ==> (#[trigger] s[i]).key() != k,
    ensures
        !keyed_map(s).contains_key(k),
{
    lemma_keyed_domain(s, k);
}

} // verus!
