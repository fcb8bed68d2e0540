//! Lists of entries keyed by strings, viewed as maps.

use vstd::prelude::*;

verus! {

/// The map from each key to the value at its position.
pub open spec fn keyed_map<V>(ks: Seq<Seq<char>>, vs: Seq<V>) -> Map<Seq<char>, V> {
    Map::new(|k: Seq<char>| ks.contains(k), |k: Seq<char>| vs[ks.index_of(k)])
}

/// Replacing the value at the position of a key replaces the key's value.
pub proof fn lemma_keyed_update<V>(ks: Seq<Seq<char>>, vs: Seq<V>, p: int, v: V)
    requires
        ks.no_duplicates(),
        ks.len() == vs.len(),
        0 <= p < ks.len(),
    ensures
        keyed_map(ks, vs.update(p, v)) == keyed_map(ks, vs).insert(ks[p], v),
{
    let a = keyed_map(ks, vs.update(p, v));
    let b = keyed_map(ks, vs).insert(ks[p], v);
    assert(ks.contains(ks[p]));
    assert forall|k: Seq<char>| a.dom().contains(k) <==> b.dom().contains(k) by {}
    assert forall|k: Seq<char>| a.dom().contains(k) implies a[k] == b[k] by {
        let i = ks.index_of(k);
        assert(0 <= i < ks.len() && ks[i] == k);
        if k == ks[p] {
            assert(i == p);
        } else {
            assert(i != p);
        }
    }
    assert(a =~= b);
}

/// Appending a new key adds it with its value.
pub proof fn lemma_keyed_push<V>(ks: Seq<Seq<char>>, vs: Seq<V>, k: Seq<char>, v: V)
    requires
        ks.no_duplicates(),
        ks.len() == vs.len(),
        !ks.contains(k),
    ensures
        ks.push(k).no_duplicates(),
        keyed_map(ks.push(k), vs.push(v)) == keyed_map(ks, vs).insert(k, v),
{
    let ks2 = ks.push(k);
    assert forall|i: int, j: int|
        0 <= i < ks2.len() && 0 <= j < ks2.len() && i != j implies ks2[i] != ks2[j] by {
        if i == ks.len() as int {
            assert(ks.contains(ks[j]));
        } else if j == ks.len() as int {
            assert(ks.contains(ks[i]));
        }
    }
    let a = keyed_map(ks2, vs.push(v));
    let b = keyed_map(ks, vs).insert(k, v);
    assert(ks2[ks.len() as int] == k);
    assert forall|x: Seq<char>| a.dom().contains(x) <==> b.dom().contains(x) by {
        if ks.contains(x) {
            let i = ks.index_of(x);
            assert(ks2[i] == x);
        }
        if ks2.contains(x) && x != k {
            let i = ks2.index_of(x);
            assert(ks[i] == x);
        }
    }
    assert forall|x: Seq<char>| a.dom().contains(x) implies a[x] == b[x] by {
        let i = ks2.index_of(x);
        assert(0 <= i < ks2.len() && ks2[i] == x);
        if x == k {
            assert(i == ks.len() as int);
        } else {
            let j = ks.index_of(x);
            assert(ks2[j] == x);
            assert(i == j);
        }
    }
    assert(a =~= b);
}

/// Removing the entry at the position of a key removes the key.
pub proof fn lemma_keyed_remove<V>(ks: Seq<Seq<char>>, vs: Seq<V>, p: int)
    requires
        ks.no_duplicates(),
        ks.len() == vs.len(),
        0 <= p < ks.len(),
    ensures
        ks.remove(p).no_duplicates(),
        keyed_map(ks.remove(p), vs.remove(p)) == keyed_map(ks, vs).remove(ks[p]),
{
    let ks2 = ks.remove(p);
    let vs2 = vs.remove(p);
    assert forall|i: int, j: int|
        0 <= i < ks2.len() && 0 <= j < ks2.len() && i != j implies ks2[i] != ks2[j] by {
        let i0 = if i < p { i } else { i + 1 };
        let j0 = if j < p { j } else { j + 1 };
        assert(ks2[i] == ks[i0]);
        assert(ks2[j] == ks[j0]);
    }
    let a = keyed_map(ks2, vs2);
    let b = keyed_map(ks, vs).remove(ks[p]);
    assert forall|x: Seq<char>| a.dom().contains(x) <==> b.dom().contains(x) by {
        if ks2.contains(x) {
            let i = ks2.index_of(x);
            let i0 = if i < p { i } else { i + 1 };
            assert(ks[i0] == x);
            assert(i0 != p);
        }
        if ks.contains(x) && x != ks[p] {
            let i = ks.index_of(x);
            assert(i != p);
            let i2 = if i < p { i } else { i - 1 };
            assert(ks2[i2] == x);
        }
    }
    assert forall|x: Seq<char>| a.dom().contains(x) implies a[x] == b[x] by {
        let i = ks2.index_of(x);
        assert(0 <= i < ks2.len() && ks2[i] == x);
        let i0 = if i < p { i } else { i + 1 };
        assert(ks[i0] == x);
        let j = ks.index_of(x);
        assert(ks[j] == x);
        assert(j == i0);
        assert(vs2[i] == vs[i0]);
    }
    assert(a =~= b);
}

} // verus!
