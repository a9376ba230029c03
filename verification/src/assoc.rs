//! Association lists keyed by [`Endpoint`].
//!
//! The registry's pending-reservation and running-application tables are
//! small maps keyed by connection endpoints. They are stored as vectors of
//! key/value pairs whose keys are pairwise distinct, and they are specified
//! through [`assoc_map`], the finite map such a vector denotes.

use vstd::prelude::*;

use crate::endpoint::Endpoint;

verus! {

/// The finite map denoted by a key/value vector: later entries win,
/// though under [`distinct_keys`] there is never a repeated key.
pub open spec fn assoc_map<V: View>(s: Seq<(Endpoint, V)>) -> Map<Endpoint, V::V>
    decreases s.len(),
{
    if s.len() == 0 {
        Map::empty()
    } else {
        assoc_map(s.drop_last()).insert(s.last().0, s.last().1@)
    }
}

/// No endpoint appears as a key more than once.
pub open spec fn distinct_keys<V>(s: Seq<(Endpoint, V)>) -> bool {
    forall|i: int, j: int| 0 <= i < j < s.len() ==> (#[trigger] s[i]).0 != (#[trigger] s[j]).0
}

/// A key is in the map exactly when some entry carries it.
pub proof fn lemma_assoc_map_dom<V: View>(s: Seq<(Endpoint, V)>, e: Endpoint)
    ensures
        assoc_map(s).contains_key(e) <==> exists|i: int|
            0 <= i < s.len() && (#[trigger] s[i]).0 == e,
    decreases s.len(),
{
    if s.len() == 0 {
    } else {
        lemma_assoc_map_dom(s.drop_last(), e);
        if s.last().0 == e {
            assert((s[s.len() - 1]).0 == e);
        } else {
            if exists|i: int| 0 <= i < s.len() && (#[trigger] s[i]).0 == e {
                let i = choose|i: int| 0 <= i < s.len() && (#[trigger] s[i]).0 == e;
                assert((s.drop_last()[i]).0 == e);
            }
            if exists|i: int| 0 <= i < s.drop_last().len() && (#[trigger] s.drop_last()[i]).0
                == e {
                let i = choose|i: int|
                    0 <= i < s.drop_last().len() && (#[trigger] s.drop_last()[i]).0 == e;
                assert((s[i]).0 == e);
            }
        }
    }
}

/// Dropping the last entry keeps the keys distinct.
proof fn lemma_distinct_drop_last<V>(s: Seq<(Endpoint, V)>)
    requires
        distinct_keys(s),
        s.len() > 0,
    ensures
        distinct_keys(s.drop_last()),
{
    assert forall|i: int, j: int| 0 <= i < j < s.drop_last().len() implies (#[trigger] s.drop_last()[
        i
    ]).0 != (#[trigger] s.drop_last()[j]).0 by {
        assert(s.drop_last()[i] == s[i]);
        assert(s.drop_last()[j] == s[j]);
    }
}

/// Under distinct keys, the entry at `i` gives the map's value at its key.
pub proof fn lemma_assoc_map_index<V: View>(s: Seq<(Endpoint, V)>, i: int)
    requires
        distinct_keys(s),
        0 <= i < s.len(),
    ensures
        assoc_map(s).contains_key((s[i]).0),
        assoc_map(s)[(s[i]).0] == (s[i]).1@,
    decreases s.len(),
{
    if i == s.len() - 1 {
    } else {
        lemma_distinct_drop_last(s);
        lemma_assoc_map_index(s.drop_last(), i);
        assert(s.drop_last()[i] == s[i]);
        assert((s[i]).0 != (s[s.len() - 1]).0);
    }
}

/// Appending an entry inserts its binding into the map.
pub proof fn lemma_assoc_map_push<V: View>(s: Seq<(Endpoint, V)>, e: Endpoint, v: V)
    ensures
        assoc_map(s.push((e, v))) == assoc_map(s).insert(e, v@),
{
    assert(s.push((e, v)).drop_last() =~= s);
    assert(s.push((e, v)).last() == (e, v));
}

/// Removing the entry at `i` removes its key's binding from the map.
pub proof fn lemma_assoc_map_remove<V: View>(s: Seq<(Endpoint, V)>, i: int)
    requires
        distinct_keys(s),
        0 <= i < s.len(),
    ensures
        assoc_map(s.remove(i)) == assoc_map(s).remove((s[i]).0),
    decreases s.len(),
{
    let k = (s[i]).0;
    if i == s.len() - 1 {
        assert(s.remove(i) =~= s.drop_last());
        lemma_distinct_drop_last(s);
        lemma_assoc_map_dom(s.drop_last(), k);
        assert forall|j: int| 0 <= j < s.drop_last().len() implies (#[trigger] s.drop_last()[j]).0
            != k by {
            assert(s.drop_last()[j] == s[j]);
        }
        assert(!assoc_map(s.drop_last()).contains_key(k));
        assert(assoc_map(s.drop_last()).insert(k, (s[i]).1@).remove(k) =~= assoc_map(
            s.drop_last(),
        ));
        assert(assoc_map(s.remove(i)) =~= assoc_map(s).remove(k));
    } else {
        lemma_distinct_drop_last(s);
        lemma_assoc_map_remove(s.drop_last(), i);
        assert(s.drop_last()[i] == s[i]);
        assert(s.remove(i).drop_last() =~= s.drop_last().remove(i));
        assert(s.remove(i).last() == s.last());
        let lk = s.last().0;
        let lv = s.last().1@;
        assert(lk != k);
        assert(assoc_map(s.remove(i)) == assoc_map(s.drop_last()).remove(k).insert(lk, lv));
        assert(assoc_map(s.drop_last()).remove(k).insert(lk, lv) =~= assoc_map(
            s.drop_last(),
        ).insert(lk, lv).remove(k));
        assert(assoc_map(s.remove(i)) =~= assoc_map(s).remove(k));
    }
}

/// The position of the entry carrying `key`, if there is one.
fn assoc_find<V: View>(v: &Vec<(Endpoint, V)>, key: Endpoint) -> (r: Option<usize>)
    ensures
        match r {
            Some(i) => i < v@.len() && (v@[i as int]).0 == key,
            None => forall|j: int| 0 <= j < v@.len() ==> (#[trigger] v@[j]).0 != key,
        },
{
    let n = v.len();
    for i in 0..n
        invariant
            n == v.len(),
            forall|j: int| 0 <= j < i ==> (#[trigger] v@[j]).0 != key,
    {
        if v[i].0 == key {
            return Some(i);
        }
    }
    None
}

/// Remove the binding of `key`, if any, and hand its value back.
pub fn assoc_remove<V: View>(v: &mut Vec<(Endpoint, V)>, key: Endpoint) -> (r: Option<V>)
    requires
        distinct_keys(old(v)@),
    ensures
        distinct_keys(final(v)@),
        assoc_map(final(v)@) == assoc_map(old(v)@).remove(key),
        match r {
            Some(val) => assoc_map(old(v)@).contains_key(key) && val@ == assoc_map(old(v)@)[key],
            None => !assoc_map(old(v)@).contains_key(key) && final(v)@ == old(v)@,
        },
{
    match assoc_find(v, key) {
        Some(i) => {
            proof {
                lemma_assoc_map_index(v@, i as int);
                lemma_assoc_map_remove(v@, i as int);
            }
            let ghost before = v@;
            let pair = v.remove(i);
            proof {
                assert forall|a: int, b: int| 0 <= a < b < v@.len() implies (#[trigger] v@[a]).0
                    != (#[trigger] v@[b]).0 by {
                    if b < i {
                        assert(v@[a] == before[a] && v@[b] == before[b]);
                    } else if a < i {
                        assert(v@[a] == before[a] && v@[b] == before[b + 1]);
                    } else {
                        assert(v@[a] == before[a + 1] && v@[b] == before[b + 1]);
                    }
                }
            }
            Some(pair.1)
        },
        None => {
            proof {
                lemma_assoc_map_dom(v@, key);
                assert(assoc_map(v@).remove(key) =~= assoc_map(v@));
            }
            None
        },
    }
}

/// Bind `key` to `val`, replacing any earlier binding of the same key.
pub fn assoc_insert<V: View>(v: &mut Vec<(Endpoint, V)>, key: Endpoint, val: V)
    requires
        distinct_keys(old(v)@),
    ensures
        distinct_keys(final(v)@),
        assoc_map(final(v)@) == assoc_map(old(v)@).insert(key, val@),
{
    let _ = assoc_remove(v, key);
    let ghost removed = v@;
    proof {
        lemma_assoc_map_dom(v@, key);
        lemma_assoc_map_push(v@, key, val);
    }
    v.push((key, val));
    proof {
        assert(v@.drop_last() =~= removed);
        assert forall|a: int, b: int| 0 <= a < b < v@.len() implies (#[trigger] v@[a]).0
            != (#[trigger] v@[b]).0 by {
            if b < v@.len() - 1 {
                assert(v@[a] == removed[a] && v@[b] == removed[b]);
            } else {
                assert(v@[a] == removed[a]);
            }
        }
        assert(assoc_map(old(v)@).remove(key).insert(key, val@) =~= assoc_map(old(v)@).insert(
            key,
            val@,
        ));
    }
}

} // verus!
