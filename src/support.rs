//! Small collection helpers.
use vstd::prelude::*;
use vstd::std_specs::cmp::PartialEqSpec;

verus! {

/// The elements of `s` that equal no earlier element, in order.
pub open spec fn first_occurrences<K: PartialEq>(s: Seq<K>) -> Seq<K>
    decreases s.len(),
{
    if s.len() == 0 {
        Seq::<K>::empty()
    } else {
        let p = first_occurrences(s.drop_last());
        if exists|j: int| 0 <= j < s.len() - 1 && (#[trigger] s[j]).eq_spec(&s.last()) {
            p
        } else {
            p.push(s.last())
        }
    }
}

/// Whether `list` holds an element equal to `value`.
pub fn have_in<T: PartialEq>(value: T, list: Vec<T>) -> (r: bool)
    ensures
        T::obeys_eq_spec() ==> (r <==> exists|i: int|
            0 <= i < list@.len() && (#[trigger] list@[i]).eq_spec(&value)),
{
    let n = list.len();
    let mut i: usize = 0;
    while i < n
        invariant
            n == list@.len(),
            i <= n,
            T::obeys_eq_spec() ==> forall|j: int| 0 <= j < i ==> !(#[trigger] list@[j]).eq_spec(&value),
        decreases n - i,
    {
        if list[i].eq(&value) {
            return true;
        }
        i = i + 1;
    }
    false
}

/// The keys `f` gives for `items`, each kept only at its first occurrence, in order.
pub fn collect_unique<T, K, F>(items: Vec<T>, f: F) -> (r: Vec<K>) where
    K: core::hash::Hash + Eq + Clone,
    F: Fn(T) -> K,

    requires
        forall|t: T| f.requires((t,)),
    ensures
        exists|keys: Seq<K>|
            {
                &&& keys.len() == items@.len()
                &&& forall|i: int| 0 <= i < items@.len() ==> f.ensures((items@[i],), #[trigger] keys[i])
                &&& K::obeys_eq_spec() ==> r@ == first_occurrences(keys)
            },
{
    let ghost all = items@;
    let mut rest = items;
    let mut keys: Vec<K> = Vec::new();
    let mut keep: Vec<bool> = Vec::new();
    while rest.len() > 0
        invariant
            keys@.len() + rest@.len() == all.len(),
            keep@.len() == keys@.len(),
            rest@ == all.subrange(keys@.len() as int, all.len() as int),
            forall|t: T| f.requires((t,)),
            forall|i: int| 0 <= i < keys@.len() ==> f.ensures((all[i],), #[trigger] keys@[i]),
            K::obeys_eq_spec() ==> forall|i: int| 0 <= i < keep@.len() ==> (#[trigger] keep@[i] <==> !exists|j: int| 0 <= j < i && (#[trigger] keys@[j]).eq_spec(&keys@[i])),
        decreases rest@.len(),
    {
        let item = rest.remove(0);
        assert(item == all[keys@.len() as int]);
        let k = f(item);
        let ghost keys_before = keys@;
        let ghost keep_before = keep@;
        let mut seen = false;
        let mut j: usize = 0;
        while j < keys.len()
            invariant
                keys@ == keys_before,
                j <= keys@.len(),
                K::obeys_eq_spec() ==> (seen <==> exists|m: int| 0 <= m < j && (#[trigger] keys@[m]).eq_spec(&k)),
            decreases keys@.len() - j,
        {
            if keys[j].eq(&k) {
                seen = true;
            }
            j = j + 1;
        }
        keys.push(k);
        keep.push(!seen);
        proof {
            assert(forall|m: int| 0 <= m < keys_before.len() ==> keys@[m] == keys_before[m]);
            assert(forall|m: int| 0 <= m < keep_before.len() ==> keep@[m] == keep_before[m]);
            let n = keys_before.len() as int;
            assert(keys@[n] == k);
            if K::obeys_eq_spec() {
                assert forall|i: int| 0 <= i < keep@.len() implies (#[trigger] keep@[i] <==> !exists|
                    j: int,
                | 0 <= j < i && (#[trigger] keys@[j]).eq_spec(&keys@[i])) by {
                    if i < n {
                        assert(keep@[i] == keep_before[i]);
                        assert(forall|j: int| 0 <= j < i ==> keys@[j] == keys_before[j]);
                    } else {
                        assert(forall|j: int| 0 <= j < i ==> keys@[j] == keys_before[j]);
                    }
                }
            }
        }
        assert(rest@ =~= all.subrange(keys@.len() as int, all.len() as int));
    }
    assert(keys@.len() == all.len());
    let ghost produced = keys@;
    let total = keys.len();
    let mut out: Vec<K> = Vec::new();
    let mut idx: usize = 0;
    while keys.len() > 0
        invariant
            produced.len() == total,
            idx + keys@.len() == produced.len(),
            keep@.len() == produced.len(),
            keys@ == produced.subrange(idx as int, produced.len() as int),
            K::obeys_eq_spec() ==> forall|i: int| 0 <= i < keep@.len() ==> (#[trigger] keep@[i] <==> !exists|j: int| 0 <= j < i && (#[trigger] produced[j]).eq_spec(&produced[i])),
            K::obeys_eq_spec() ==> out@ == first_occurrences(produced.subrange(0, idx as int)),
        decreases keys@.len(),
    {
        let k = keys.remove(0);
        proof {
            let s = produced.subrange(0, idx + 1);
            assert(s.drop_last() =~= produced.subrange(0, idx as int));
            assert(s.last() == produced[idx as int]);
            assert(forall|j: int| 0 <= j < idx ==> s[j] == produced[j]);
        }
        if keep[idx] {
            out.push(k);
        }
        idx = idx + 1;
        assert(keys@ =~= produced.subrange(idx as int, produced.len() as int));
    }
    assert(produced.subrange(0, idx as int) =~= produced);
    out
}

} // verus!
