//! Collecting the keys of a hash map.
use vstd::prelude::*;
use std::collections::HashMap;

verus! {

broadcast use vstd::std_specs::hash::group_hash_axioms;

/// The keys of `m`, each once, in the map's own order.
pub fn keys_of_u64_map<V>(m: &HashMap<u64, V>) -> (r: Vec<u64>)
    ensures
        r@.to_set() == m@.dom(),
        r@.no_duplicates(),
{
    let mut r: Vec<u64> = Vec::new();
    for k in it: m.keys()
        invariant
            it.seq().unref().to_set() == m@.dom(),
            it.seq().unref().no_duplicates(),
            r@ == it.seq().unref().subrange(0, it.index() as int),
            r@.no_duplicates(),
            forall|x: u64| #[trigger] r@.contains(x) ==> m@.dom().contains(x),
            forall|x: u64| #[trigger] m@.dom().contains(x) ==> r@.contains(x) || exists|j: int|
                it.index() <= j < it.seq().len() && *it.seq()[j] == x,
    {
        let ghost keys = it.seq().unref();
        let ghost i = it.index();
        assert(keys[i] == *k);
        r.push(*k);
        assert(r@ =~= keys.subrange(0, i + 1));
        assert forall|x: u64| #[trigger] m@.dom().contains(x) implies r@.contains(x) || exists|j: int|
            i + 1 <= j < it.seq().len() && *it.seq()[j] == x by {
            if !r@.contains(x) {
                let j = choose|j: int| i <= j < it.seq().len() && *it.seq()[j] == x;
                if j == i {
                    assert(r@[i] == x);
                }
            }
        }
        assert forall|a: int, b: int| 0 <= a < b < r@.len() implies r@[a] != r@[b] by {
            assert(r@[a] == keys[a]);
            assert(r@[b] == keys[b]);
        }
        assert forall|x: u64| #[trigger] r@.contains(x) implies m@.dom().contains(x) by {
            let a = choose|a: int| 0 <= a < r@.len() && r@[a] == x;
            assert(keys[a] == x);
            assert(keys.to_set().contains(x));
        }
    }
    assert(r@.to_set() =~= m@.dom());
    r
}

/// The keys of `m`, each once, in the map's own order.
pub fn keys_of_u128_map<V>(m: &HashMap<u128, V>) -> (r: Vec<u128>)
    ensures
        r@.to_set() == m@.dom(),
        r@.no_duplicates(),
{
    let mut r: Vec<u128> = Vec::new();
    for k in it: m.keys()
        invariant
            it.seq().unref().to_set() == m@.dom(),
            it.seq().unref().no_duplicates(),
            r@ == it.seq().unref().subrange(0, it.index() as int),
            r@.no_duplicates(),
            forall|x: u128| #[trigger] r@.contains(x) ==> m@.dom().contains(x),
            forall|x: u128| #[trigger] m@.dom().contains(x) ==> r@.contains(x) || exists|j: int|
                it.index() <= j < it.seq().len() && *it.seq()[j] == x,
    {
        let ghost keys = it.seq().unref();
        let ghost i = it.index();
        assert(keys[i] == *k);
        r.push(*k);
        assert(r@ =~= keys.subrange(0, i + 1));
        assert forall|x: u128| #[trigger] m@.dom().contains(x) implies r@.contains(x) || exists|j: int|
            i + 1 <= j < it.seq().len() && *it.seq()[j] == x by {
            if !r@.contains(x) {
                let j = choose|j: int| i <= j < it.seq().len() && *it.seq()[j] == x;
                if j == i {
                    assert(r@[i] == x);
                }
            }
        }
        assert forall|a: int, b: int| 0 <= a < b < r@.len() implies r@[a] != r@[b] by {
            assert(r@[a] == keys[a]);
            assert(r@[b] == keys[b]);
        }
        assert forall|x: u128| #[trigger] r@.contains(x) implies m@.dom().contains(x) by {
            let a = choose|a: int| 0 <= a < r@.len() && r@[a] == x;
            assert(keys[a] == x);
            assert(keys.to_set().contains(x));
        }
    }
    assert(r@.to_set() =~= m@.dom());
    r
}

/// Appending to a sequence adds the element to its set.
pub proof fn lemma_push_to_set<A>(s: Seq<A>, x: A)
    ensures
        s.push(x).to_set() == s.to_set().insert(x),
{
    assert forall|y: A| s.push(x).to_set().contains(y) <==> s.to_set().insert(x).contains(y) by {
        if s.push(x).to_set().contains(y) && y != x {
            let j = choose|j: int| 0 <= j < s.push(x).len() && s.push(x)[j] == y;
            assert(s[j] == y);
        }
        if s.to_set().contains(y) {
            let j = choose|j: int| 0 <= j < s.len() && s[j] == y;
            assert(s.push(x)[j] == y);
        }
        if y == x {
            assert(s.push(x)[s.len() as int] == x);
        }
    }
    assert(s.push(x).to_set() =~= s.to_set().insert(x));
}

} // verus!
