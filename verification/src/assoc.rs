//! Association lists: sequences of key/value pairs looked up by the first
//! pair with a matching key. Both the header mapping and the route table
//! are specified with these.

use vstd::prelude::*;

verus! {

/// The value of the first pair whose key is `k`, if any.
pub open spec fn assoc_find<K, V>(es: Seq<(K, V)>, k: K) -> Option<V>
    decreases es.len(),
{
    if es.len() == 0 {
        None
    } else if es[0].0 == k {
        Some(es[0].1)
    } else {
        assoc_find(es.drop_first(), k)
    }
}

/// The index of the first pair whose key is `k`, or -1.
pub open spec fn assoc_index<K, V>(es: Seq<(K, V)>, k: K) -> int
    decreases es.len(),
{
    if es.len() == 0 {
        -1
    } else if es[0].0 == k {
        0
    } else {
        let r = assoc_index(es.drop_first(), k);
        if r < 0 {
            -1
        } else {
            r + 1
        }
    }
}

pub proof fn lemma_assoc_index<K, V>(es: Seq<(K, V)>, k: K)
    ensures
        assoc_find(es, k) is Some <==> 0 <= assoc_index(es, k) < es.len(),
        assoc_find(es, k) is Some ==> es[assoc_index(es, k)].0 == k && assoc_find(es, k) == Some(
            es[assoc_index(es, k)].1,
        ) && (forall|j: int| 0 <= j < assoc_index(es, k) ==> es[j].0 != k),
        assoc_find(es, k) is None ==> (forall|j: int| 0 <= j < es.len() ==> es[j].0 != k),
    decreases es.len(),
{
    if es.len() > 0 && es[0].0 != k {
        let es1 = es.drop_first();
        lemma_assoc_index(es1, k);
        assert(forall|j: int| 0 <= j < es1.len() ==> es1[j] == es[j + 1]);
        if assoc_find(es1, k) is Some {
            let r = assoc_index(es1, k);
            assert(assoc_index(es, k) == r + 1);
            assert(es[r + 1] == es1[r]);
            assert forall|j: int| 0 <= j < r + 1 implies es[j].0 != k by {
                if j > 0 {
                    assert(es1[j - 1].0 != k);
                }
            }
        } else {
            assert forall|j: int| 0 <= j < es.len() implies es[j].0 != k by {
                if j > 0 {
                    assert(es1[j - 1].0 != k);
                }
            }
        }
    }
}

/// A first occurrence pins down the find and the index.
pub proof fn lemma_assoc_find_at<K, V>(es: Seq<(K, V)>, k: K, i: int)
    requires
        0 <= i < es.len(),
        es[i].0 == k,
        forall|j: int| 0 <= j < i ==> es[j].0 != k,
    ensures
        assoc_find(es, k) == Some(es[i].1),
        assoc_index(es, k) == i,
{
    lemma_assoc_index(es, k);
}

/// A key missing from every pair is not found.
pub proof fn lemma_assoc_find_none<K, V>(es: Seq<(K, V)>, k: K)
    requires
        forall|j: int| 0 <= j < es.len() ==> es[j].0 != k,
    ensures
        assoc_find(es, k) is None,
{
    lemma_assoc_index(es, k);
}

/// Replacing the value at the first occurrence of `k` changes only what is
/// found under `k`.
pub proof fn lemma_assoc_replace<K, V>(es: Seq<(K, V)>, i: int, k: K, v: V, k2: K)
    requires
        0 <= i < es.len(),
        es[i].0 == k,
        forall|j: int| 0 <= j < i ==> es[j].0 != k,
    ensures
        assoc_find(es.update(i, (k, v)), k2) == if k2 == k {
            Some(v)
        } else {
            assoc_find(es, k2)
        },
    decreases i,
{
    let es2 = es.update(i, (k, v));
    if i == 0 {
        assert(es2.drop_first() =~= es.drop_first());
    } else {
        assert(es2.drop_first() =~= es.drop_first().update(i - 1, (k, v)));
        lemma_assoc_replace(es.drop_first(), i - 1, k, v, k2);
    }
}

/// Appending a pair with a fresh key changes only what is found under it.
pub proof fn lemma_assoc_push<K, V>(es: Seq<(K, V)>, k: K, v: V, k2: K)
    requires
        forall|j: int| 0 <= j < es.len() ==> es[j].0 != k,
    ensures
        assoc_find(es.push((k, v)), k2) == if k2 == k {
            Some(v)
        } else {
            assoc_find(es, k2)
        },
    decreases es.len(),
{
    let es2 = es.push((k, v));
    if es.len() == 0 {
        assert(es2.drop_first() =~= Seq::<(K, V)>::empty());
    } else {
        assert(es2.drop_first() =~= es.drop_first().push((k, v)));
        lemma_assoc_push(es.drop_first(), k, v, k2);
    }
}

} // verus!
