//! Association-sequence model: a sequence of key/value pairs with pairwise
//! distinct keys, read as a finite map.
//!
//! The scalar map handle stores its entries as such a sequence; the lemmas
//! here connect the sequence operations its methods perform — appending a
//! pair, overwriting the value of a pair in place, removing a pair — to the
//! corresponding operations on the map the sequence describes.

use vstd::prelude::*;

verus! {

/// Whether some pair in `s` carries the key `k`.
pub open spec fn assoc_has_key<K, V>(s: Seq<(K, V)>, k: K) -> bool {
    exists|i: int| 0 <= i < s.len() && (#[trigger] s[i]).0 == k
}

/// Whether the keys of `s` are pairwise distinct.
pub open spec fn uniq_keys<K, V>(s: Seq<(K, V)>) -> bool {
    forall|i: int, j: int|
        0 <= i < j < s.len() ==> (#[trigger] s[i]).0 != (#[trigger] s[j]).0
}

/// The map described by `s`; on a duplicated key the later pair wins.
pub open spec fn as_map<K, V>(s: Seq<(K, V)>) -> Map<K, V>
    decreases s.len(),
{
    if s.len() == 0 {
        Map::empty()
    } else {
        as_map(s.drop_last()).insert(s.last().0, s.last().1)
    }
}

/// The domain of the described map is finite.
pub proof fn lemma_as_map_finite<K, V>(s: Seq<(K, V)>)
    ensures
        as_map(s).dom().finite(),
    decreases s.len(),
{
    if s.len() != 0 {
        lemma_as_map_finite(s.drop_last());
    }
}

/// Distinctness of keys carries over to every prefix of the sequence.
pub proof fn lemma_uniq_drop_last<K, V>(s: Seq<(K, V)>)
    requires
        uniq_keys(s),
        s.len() > 0,
    ensures
        uniq_keys(s.drop_last()),
{
    let d = s.drop_last();
    assert forall|i: int, j: int| 0 <= i < j < d.len() implies (#[trigger] d[i]).0 != (
    #[trigger] d[j]).0 by {
        assert(d[i] == s[i]);
        assert(d[j] == s[j]);
    }
}

/// The described map holds a key exactly when some pair carries it.
pub proof fn lemma_as_map_contains<K, V>(s: Seq<(K, V)>, k: K)
    ensures
        as_map(s).contains_key(k) <==> assoc_has_key(s, k),
    decreases s.len(),
{
    if s.len() == 0 {
    } else {
        let d = s.drop_last();
        lemma_as_map_contains(d, k);
        if s.last().0 == k {
            assert((s[s.len() - 1]).0 == k);
        } else if assoc_has_key(d, k) {
            let i = choose|i: int| 0 <= i < d.len() && (#[trigger] d[i]).0 == k;
            assert(s[i] == d[i]);
        } else if assoc_has_key(s, k) {
            let i = choose|i: int| 0 <= i < s.len() && (#[trigger] s[i]).0 == k;
            assert(i < s.len() - 1);
            assert(d[i] == s[i]);
        }
    }
}

/// With pairwise distinct keys, the pair at `i` gives the binding of its key.
pub proof fn lemma_as_map_index<K, V>(s: Seq<(K, V)>, i: int)
    requires
        uniq_keys(s),
        0 <= i < s.len(),
    ensures
        as_map(s).contains_key(s[i].0),
        as_map(s)[s[i].0] == s[i].1,
    decreases s.len(),
{
    let d = s.drop_last();
    if i == s.len() - 1 {
    } else {
        lemma_uniq_drop_last(s);
        assert(d[i] == s[i]);
        lemma_as_map_index(d, i);
        assert(s[i].0 != (s[s.len() - 1]).0);
    }
}

/// With pairwise distinct keys, the described map has exactly one binding
/// per pair.
pub proof fn lemma_as_map_len<K, V>(s: Seq<(K, V)>)
    requires
        uniq_keys(s),
    ensures
        as_map(s).dom().len() == s.len(),
    decreases s.len(),
{
    broadcast use vstd::set::group_set_axioms;

    if s.len() == 0 {
        assert(as_map(s).dom() =~= Set::<K>::empty());
    } else {
        let d = s.drop_last();
        lemma_uniq_drop_last(s);
        lemma_as_map_len(d);
        lemma_as_map_finite(d);
        lemma_as_map_contains(d, s.last().0);
        assert(!assoc_has_key(d, s.last().0)) by {
            if assoc_has_key(d, s.last().0) {
                let i = choose|i: int| 0 <= i < d.len() && (#[trigger] d[i]).0 == s.last().0;
                assert(s[i] == d[i]);
                assert((s[i]).0 == (s[s.len() - 1]).0);
            }
        }
        assert(as_map(s).dom() == as_map(d).dom().insert(s.last().0));
    }
}

/// Appending a pair with a fresh key keeps the keys pairwise distinct.
pub proof fn lemma_uniq_push<K, V>(s: Seq<(K, V)>, k: K, v: V)
    requires
        uniq_keys(s),
        !assoc_has_key(s, k),
    ensures
        uniq_keys(s.push((k, v))),
{
    let t = s.push((k, v));
    assert forall|i: int, j: int| 0 <= i < j < t.len() implies (#[trigger] t[i]).0 != (
    #[trigger] t[j]).0 by {
        if j < s.len() {
            assert(t[i] == s[i]);
            assert(t[j] == s[j]);
        } else {
            assert(t[i] == s[i]);
            assert(t[j] == (k, v));
        }
    }
}

/// Appending a pair with a fresh key adds exactly that binding.
pub proof fn lemma_as_map_push<K, V>(s: Seq<(K, V)>, k: K, v: V)
    ensures
        as_map(s.push((k, v))) == as_map(s).insert(k, v),
{
    let t = s.push((k, v));
    assert(t.drop_last() =~= s);
    assert(t.last() == (k, v));
}

/// Overwriting the value of the pair at `j` in place rebinds its key and
/// nothing else.
pub proof fn lemma_as_map_update<K, V>(s: Seq<(K, V)>, j: int, v: V)
    requires
        uniq_keys(s),
        0 <= j < s.len(),
    ensures
        uniq_keys(s.update(j, (s[j].0, v))),
        as_map(s.update(j, (s[j].0, v))) == as_map(s).insert(s[j].0, v),
    decreases s.len(),
{
    let t = s.update(j, (s[j].0, v));
    assert forall|x: int, y: int| 0 <= x < y < t.len() implies (#[trigger] t[x]).0 != (
    #[trigger] t[y]).0 by {
        assert(t[x].0 == s[x].0);
        assert(t[y].0 == s[y].0);
        assert(s[x].0 != s[y].0);
    }
    let d = s.drop_last();
    if j == s.len() - 1 {
        assert(t.drop_last() =~= d);
        assert(t.last() == (s[j].0, v));
        assert(as_map(d).insert(s[j].0, s[j].1).insert(s[j].0, v) =~= as_map(d).insert(
            s[j].0,
            v,
        ));
    } else {
        lemma_uniq_drop_last(s);
        lemma_as_map_update(d, j, v);
        assert(d[j] == s[j]);
        assert(t.drop_last() =~= d.update(j, (s[j].0, v)));
        assert(t.last() == s.last());
        assert(s[j].0 != (s[s.len() - 1]).0);
        assert(as_map(d).insert(s[j].0, v).insert(s.last().0, s.last().1) =~= as_map(d).insert(
            s.last().0,
            s.last().1,
        ).insert(s[j].0, v));
    }
}

/// Removing the pair at `j` keeps the keys pairwise distinct.
pub proof fn lemma_uniq_remove<K, V>(s: Seq<(K, V)>, j: int)
    requires
        uniq_keys(s),
        0 <= j < s.len(),
    ensures
        uniq_keys(s.remove(j)),
{
    let t = s.remove(j);
    assert forall|x: int, y: int| 0 <= x < y < t.len() implies (#[trigger] t[x]).0 != (
    #[trigger] t[y]).0 by {
        let sx: int = if x < j { x } else { x + 1 };
        let sy: int = if y < j { y } else { y + 1 };
        assert(t[x] == s[sx]);
        assert(t[y] == s[sy]);
        assert(s[sx].0 != s[sy].0);
    }
}

/// Removing the pair at `j` unbinds its key and nothing else.
pub proof fn lemma_as_map_remove<K, V>(s: Seq<(K, V)>, j: int)
    requires
        uniq_keys(s),
        0 <= j < s.len(),
    ensures
        as_map(s.remove(j)) == as_map(s).remove(s[j].0),
    decreases s.len(),
{
    let t = s.remove(j);
    let d = s.drop_last();
    lemma_uniq_drop_last(s);
    if j == s.len() - 1 {
        assert(t =~= d);
        lemma_as_map_contains(d, s[j].0);
        assert(!assoc_has_key(d, s[j].0)) by {
            if assoc_has_key(d, s[j].0) {
                let i = choose|i: int| 0 <= i < d.len() && (#[trigger] d[i]).0 == s[j].0;
                assert(s[i] == d[i]);
                assert((s[i]).0 == (s[s.len() - 1]).0);
            }
        }
        assert(as_map(d).insert(s[j].0, s[j].1).remove(s[j].0) =~= as_map(d));
    } else {
        lemma_as_map_remove(d, j);
        assert(d[j] == s[j]);
        assert(t.drop_last() =~= d.remove(j));
        assert(t.last() == s.last());
        assert(s[j].0 != (s[s.len() - 1]).0);
        assert(as_map(d).remove(s[j].0).insert(s.last().0, s.last().1) =~= as_map(d).insert(
            s.last().0,
            s.last().1,
        ).remove(s[j].0));
    }
}

} // verus!
