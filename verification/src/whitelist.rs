//! Searching and filtering lists of addresses.
use vstd::prelude::*;
use crate::pubkey::Pubkey;

verus! {

/// Holds of every address but `key`.
pub open spec fn other_than(key: Pubkey) -> spec_fn(Pubkey) -> bool {
    |e: Pubkey| e != key
}

/// The list without any occurrence of `key`, in the order of the list.
pub open spec fn without(list: Seq<Pubkey>, key: Pubkey) -> Seq<Pubkey> {
    list.filter(other_than(key))
}

/// Whether `key` is in the list.
pub fn contains(list: &Vec<Pubkey>, key: &Pubkey) -> (r: bool)
    ensures
        r == list@.contains(*key),
{
    let mut i: usize = 0;
    while i < list.len()
        invariant
            0 <= i <= list@.len(),
            forall|j: int| 0 <= j < i ==> list@[j] != *key,
        decreases list@.len() - i,
    {
        if list[i].same_as(key) {
            assert(list@[i as int] == *key);
            return true;
        }
        i = i + 1;
    }
    false
}

/// The list with every occurrence of `key` taken out, the others kept in order
/// (what `retain(|e| e != key)` leaves).
pub fn remove_all(list: &Vec<Pubkey>, key: &Pubkey) -> (r: Vec<Pubkey>)
    ensures
        r@ == without(list@, *key),
{
    let mut r: Vec<Pubkey> = Vec::new();
    let mut i: usize = 0;
    while i < list.len()
        invariant
            0 <= i <= list@.len(),
            r@ == without(list@.take(i as int), *key),
        decreases list@.len() - i,
    {
        let e = list[i];
        assert(list@.take(i as int + 1).drop_last() =~= list@.take(i as int));
        reveal_with_fuel(Seq::filter, 1);
        if !e.same_as(key) {
            r.push(e);
        }
        i = i + 1;
    }
    assert(list@.take(list@.len() as int) =~= list@);
    r
}

/// A key is not in the list once its occurrences are taken out; every other member stays.
pub proof fn lemma_without_contains(list: Seq<Pubkey>, key: Pubkey, other: Pubkey)
    ensures
        !without(list, key).contains(key),
        other != key ==> (without(list, key).contains(other) <==> list.contains(other)),
        without(list, key).len() <= list.len(),
{
    let pred = other_than(key);
    list.lemma_filter_len(pred);
    if without(list, key).contains(key) {
        let i: int = choose|i: int| 0 <= i < without(list, key).len() && without(list, key)[i] == key;
        list.lemma_filter_pred(pred, i);
    }
    if other != key {
        if list.contains(other) {
            let i: int = choose|i: int| 0 <= i < list.len() && list[i] == other;
            list.lemma_filter_contains(pred, i);
        }
        if without(list, key).contains(other) {
            list.lemma_filter_contains_rev(pred, other);
        }
    }
}

/// Taking out a key that is not in the list leaves the list as it was.
pub proof fn lemma_without_absent(list: Seq<Pubkey>, key: Pubkey)
    requires
        !list.contains(key),
    ensures
        without(list, key) == list,
    decreases list.len(),
{
    reveal_with_fuel(Seq::filter, 1);
    if list.len() > 0 {
        assert(!list.drop_last().contains(key)) by {
            if list.drop_last().contains(key) {
                let i: int = choose|i: int| 0 <= i < list.drop_last().len() && list.drop_last()[i] == key;
                assert(list[i] == key);
            }
        }
        lemma_without_absent(list.drop_last(), key);
        assert(list.last() != key) by {
            assert(list[list.len() - 1] == list.last());
        }
        assert(list.drop_last().push(list.last()) =~= list);
    } else {
        assert(list =~= Seq::<Pubkey>::empty());
    }
}

/// Taking a key out of a list it was pushed onto, when it was not there before, gives the list back.
pub proof fn lemma_without_push(list: Seq<Pubkey>, key: Pubkey)
    requires
        !list.contains(key),
    ensures
        without(list.push(key), key) == list,
{
    reveal_with_fuel(Seq::filter, 1);
    assert(list.push(key).drop_last() =~= list);
    lemma_without_absent(list, key);
}

} // verus!
