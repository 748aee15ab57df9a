use vstd::prelude::*;
use vstd::laws_cmp::obeys_cmp;
use vstd::std_specs::cmp::OrdSpec;
use vstd::std_specs::cmp::PartialEqSpec;
use vstd::std_specs::cmp::PartialOrdSpec;
use core::cmp::Ordering;

verus! {

/// `ks` gives one key per item, each a value the key function can return
/// for the corresponding item.
pub open spec fn keys_for<T, K, F: Fn(&T) -> K>(items: Seq<T>, f: F, ks: Seq<K>) -> bool {
    &&& ks.len() == items.len()
    &&& forall|t: int| 0 <= t < items.len() ==> call_ensures(f, (&items[t],), #[trigger] ks[t])
}

/// Position `j` holds a minimal key of `ks` under `K`'s order, and every
/// earlier key is strictly greater: the leftmost minimum.
pub open spec fn leftmost_min_at<K: Ord>(ks: Seq<K>, j: int) -> bool {
    &&& 0 <= j < ks.len()
    &&& forall|t: int| 0 <= t < ks.len() ==> (#[trigger] ks[t].cmp_spec(&ks[j])) != Ordering::Less
    &&& forall|t: int| 0 <= t < j ==> (#[trigger] ks[t].cmp_spec(&ks[j])) == Ordering::Greater
}

/// What a successful selection returns: `x` is the item at a position `j`
/// whose key is the leftmost minimum of keys `ks` consistent with `f`.
pub open spec fn min_key_witness<T, K: Ord, F: Fn(&T) -> K>(
    items: Seq<T>,
    f: F,
    x: T,
    ks: Seq<K>,
    j: int,
) -> bool {
    &&& keys_for(items, f, ks)
    &&& 0 <= j < items.len()
    &&& x == items[j]
    &&& (obeys_cmp::<K>() ==> leftmost_min_at(ks, j))
}

/// A total order never ranks a value strictly below itself.
proof fn lemma_cmp_irreflexive<K: Ord>(x: K)
    requires
        obeys_cmp::<K>(),
    ensures
        x.cmp_spec(&x) != Ordering::Less,
{
    reveal(vstd::laws_cmp::obeys_cmp_partial_ord);
    reveal(vstd::laws_cmp::obeys_cmp_ord);
    reveal(vstd::laws_cmp::obeys_partial_cmp_spec_properties);
    assert(x.partial_cmp_spec(&x) != Some(Ordering::Less));
}

/// When a fresh key `k` ranks strictly below the running minimum `best`,
/// it becomes the new leftmost minimum of the keys seen so far.
proof fn lemma_new_best<K: Ord>(ks: Seq<K>, best: K, k: K, i: int)
    requires
        obeys_cmp::<K>(),
        0 <= i < ks.len(),
        ks[i] == k,
        k.partial_cmp_spec(&best) == Some(Ordering::Less),
        forall|t: int| 0 <= t < i ==> (#[trigger] ks[t].cmp_spec(&best)) != Ordering::Less,
    ensures
        forall|t: int| 0 <= t <= i ==> (#[trigger] ks[t].cmp_spec(&k)) != Ordering::Less,
        forall|t: int| 0 <= t < i ==> (#[trigger] ks[t].cmp_spec(&k)) == Ordering::Greater,
{
    reveal(vstd::laws_cmp::obeys_cmp_partial_ord);
    reveal(vstd::laws_cmp::obeys_cmp_ord);
    reveal(vstd::laws_cmp::obeys_partial_cmp_spec_properties);
    reveal(vstd::laws_eq::obeys_eq_spec_properties);
    lemma_cmp_irreflexive::<K>(k);
    assert forall|t: int| 0 <= t < i implies (#[trigger] ks[t].cmp_spec(&k))
        == Ordering::Greater by {
        let a = ks[t];
        assert(a.partial_cmp_spec(&best) == Some(a.cmp_spec(&best)));
        if a.cmp_spec(&best) == Ordering::Greater {
            assert(best.partial_cmp_spec(&a) == Some(Ordering::Less));
            assert(k.partial_cmp_spec(&a) == Some(Ordering::Less));
        } else {
            assert(a.cmp_spec(&best) == Ordering::Equal);
            assert(a.eq_spec(&best));
            if k.cmp_spec(&a) == Ordering::Equal {
                assert(k.eq_spec(&a));
                assert(k.eq_spec(&best));
                assert(k.partial_cmp_spec(&best) == Some(Ordering::Equal));
            } else if k.cmp_spec(&a) == Ordering::Greater {
                assert(a.partial_cmp_spec(&k) == Some(Ordering::Less));
                assert(a.partial_cmp_spec(&best) == Some(Ordering::Less));
            }
            assert(k.cmp_spec(&a) == Ordering::Less);
            assert(a.partial_cmp_spec(&k) == Some(Ordering::Greater));
        }
    }
}

/// Returns a reference to the item whose key under `f` is minimal, the
/// first such item when several keys tie, and `None` exactly when `items`
/// is empty. The ranking follows `K`'s total order whenever `K`'s `Ord`
/// implementation matches its specification (`obeys_cmp`), as it does for
/// the integer types.
pub fn min_by_key<T, K: Ord, F: Fn(&T) -> K>(items: &[T], f: F) -> (r: Option<&T>)
    requires
        forall|t: int|
            #![trigger items[t]]
            0 <= t < items@.len() ==> call_requires(f, (&items[t],)),
    ensures
        r is Some <==> items@.len() > 0,
        (r matches Some(x) ==> exists|ks: Seq<K>, j: int|
            #[trigger] min_key_witness(items@, f, *x, ks, j)),
{
    let n = items.len();
    if n == 0 {
        return None;
    }
    let mut best: K = f(&items[0]);
    let mut bi: usize = 0;
    let ghost mut ks: Seq<K> = seq![best];
    proof {
        if obeys_cmp::<K>() {
            lemma_cmp_irreflexive::<K>(best);
        }
    }
    let mut i: usize = 1;
    while i < n
        invariant
            1 <= i <= n,
            n == items@.len(),
            forall|t: int|
                #![trigger items[t]]
                0 <= t < items@.len() ==> call_requires(f, (&items[t],)),
            ks.len() == i as int,
            forall|t: int| 0 <= t < i as int ==> call_ensures(f, (&items[t],), #[trigger] ks[t]),
            0 <= bi < i,
            best == ks[bi as int],
            obeys_cmp::<K>() ==> (forall|t: int|
                0 <= t < i as int ==> (#[trigger] ks[t].cmp_spec(&best)) != Ordering::Less),
            obeys_cmp::<K>() ==> (forall|t: int|
                0 <= t < bi as int ==> (#[trigger] ks[t].cmp_spec(&best)) == Ordering::Greater),
        decreases n - i,
    {
        let k = f(&items[i]);
        proof {
            ks = ks.push(k);
        }
        if k.lt(&best) {
            proof {
                if obeys_cmp::<K>() {
                    reveal(vstd::laws_cmp::obeys_cmp_partial_ord);
                    reveal(vstd::laws_cmp::obeys_cmp_ord);
                    lemma_new_best::<K>(ks, best, k, i as int);
                }
            }
            best = k;
            bi = i;
        } else {
            proof {
                if obeys_cmp::<K>() {
                    reveal(vstd::laws_cmp::obeys_cmp_partial_ord);
                    reveal(vstd::laws_cmp::obeys_cmp_ord);
                    assert(k.partial_cmp_spec(&best) == Some(k.cmp_spec(&best)));
                    assert(ks[i as int].cmp_spec(&best) != Ordering::Less);
                }
            }
        }
        i = i + 1;
    }
    let res: &T = &items[bi];
    let r: Option<&T> = Some(res);
    proof {
        match r {
            Some(x) => {
                assert(min_key_witness(items@, f, *x, ks, bi as int));
            },
            None => {},
        }
    }
    r
}

} // verus!
