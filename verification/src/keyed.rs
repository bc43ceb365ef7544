//! Lists whose entries are found by a key.

use crate::search;
use crate::text;
use vstd::prelude::*;

verus! {

/// An entry that is found by a text.
pub trait Keyed {
    /// The text by which the entry is found.
    spec fn key(&self) -> Seq<char>;

    fn key_text(&self) -> (r: &str)
        ensures
            r@ == self.key(),
    ;
}

/// The index of the first entry with that key, or the length of the list.
pub open spec fn index_of_key<T: Keyed>(list: Seq<T>, key: Seq<char>) -> nat
    decreases list.len(),
{
    if list.len() == 0 || list[0].key() == key {
        0
    } else {
        1 + index_of_key(list.drop_first(), key)
    }
}

/// The first entry with that key.
pub open spec fn entry<T: Keyed>(list: Seq<T>, key: Seq<char>) -> Option<T> {
    let n = index_of_key(list, key) as int;
    if n < list.len() {
        Some(list[n])
    } else {
        None
    }
}

/// No two entries have the same key.
pub open spec fn unique_keys<T: Keyed>(list: Seq<T>) -> bool {
    forall|i: int, j: int|
        0 <= i < j < list.len() ==> (#[trigger] list[i]).key() != (#[trigger] list[j]).key()
}

pub proof fn lemma_index_of_key<T: Keyed>(list: Seq<T>, key: Seq<char>)
    ensures
        index_of_key(list, key) <= list.len(),
        forall|i: int| 0 <= i < index_of_key(list, key) ==> (#[trigger] list[i]).key() != key,
        index_of_key(list, key) < list.len() ==> list[index_of_key(list, key) as int].key() == key,
    decreases list.len(),
{
    if list.len() > 0 && list[0].key() != key {
        let t = list.drop_first();
        lemma_index_of_key(t, key);
        assert forall|i: int| 0 <= i < index_of_key(list, key) implies (#[trigger] list[i]).key()
            != key by {
            if i > 0 {
                assert(list[i] == t[i - 1]);
            }
        }
        if index_of_key(list, key) < list.len() {
            assert(list[index_of_key(list, key) as int] == t[index_of_key(t, key) as int]);
        }
    }
}

pub proof fn lemma_index_of_key_unique<T: Keyed>(list: Seq<T>, key: Seq<char>, n: nat)
    requires
        n <= list.len(),
        forall|i: int| 0 <= i < n ==> (#[trigger] list[i]).key() != key,
        n < list.len() ==> list[n as int].key() == key,
    ensures
        index_of_key(list, key) == n,
{
    lemma_index_of_key(list, key);
    if index_of_key(list, key) < n {
        assert(list[index_of_key(list, key) as int].key() == key);
    }
}

/// With unique keys, an entry is what its own key leads to.
pub proof fn entry_of_own_key<T: Keyed>(list: Seq<T>, i: int)
    requires
        unique_keys(list),
        0 <= i < list.len(),
    ensures
        entry(list, list[i].key()) == Some(list[i]),
{
    lemma_index_of_key_unique(list, list[i].key(), i as nat);
}

/// The keys are in ascending order.
pub open spec fn ordered_keys<T: Keyed>(list: Seq<T>) -> bool {
    forall|i: int, j: int|
        0 <= i < j < list.len() ==> text::before(
            (#[trigger] list[i]).key(),
            (#[trigger] list[j]).key(),
        )
}

/// Keys that are in ascending order are unique.
pub proof fn ordered_keys_are_unique<T: Keyed>(list: Seq<T>)
    requires
        ordered_keys(list),
    ensures
        unique_keys(list),
{
    assert forall|i: int, j: int| 0 <= i < j < list.len() implies (#[trigger] list[i]).key() != (
    #[trigger] list[j]).key() by {
        search::lemma_before_irreflexive(list[i].key());
    }
}

/// With unique keys, what a key leads to does not depend on the order of the entries.
pub proof fn order_of_entries_is_irrelevant<T: Keyed>(a: Seq<T>, b: Seq<T>, key: Seq<char>)
    requires
        unique_keys(a),
        unique_keys(b),
        forall|e: T| #[trigger] a.contains(e) <==> b.contains(e),
    ensures
        entry(a, key) == entry(b, key),
{
    lemma_index_of_key(a, key);
    lemma_index_of_key(b, key);
    if let Some(e) = entry(a, key) {
        assert(a.contains(e));
        let j = choose|j: int| 0 <= j < b.len() && b[j] == e;
        entry_of_own_key(b, j);
    }
    if let Some(e) = entry(b, key) {
        assert(b.contains(e));
        assert(a.contains(e));
        let j = choose|j: int| 0 <= j < a.len() && a[j] == e;
        entry_of_own_key(a, j);
    }
}

/// The index of the first entry with that key.
pub fn find_index<T: Keyed>(list: &Vec<T>, key: &str) -> (r: Option<usize>)
    ensures
        match r {
            Some(i) => i < list.len() && i == index_of_key(list@, key@),
            None => index_of_key(list@, key@) == list@.len(),
        },
{
    let mut i: usize = 0;
    while i < list.len()
        invariant
            i <= list.len(),
            forall|j: int| 0 <= j < i ==> (#[trigger] list@[j]).key() != key@,
        decreases list.len() - i,
    {
        if text::same(list[i].key_text(), key) {
            proof {
                lemma_index_of_key_unique(list@, key@, i as nat);
            }
            return Some(i);
        }
        i = i + 1;
    }
    proof {
        lemma_index_of_key_unique(list@, key@, i as nat);
    }
    None
}

/// The first entry with that key.
pub fn find<'a, T: Keyed>(list: &'a Vec<T>, key: &str) -> (r: Option<&'a T>)
    ensures
        match r {
            Some(e) => entry(list@, key@) == Some(*e) && e.key() == key@,
            None => entry(list@, key@) is None,
        },
{
    match find_index(list, key) {
        Some(i) => {
            proof {
                lemma_index_of_key(list@, key@);
            }
            Some(&list[i])
        },
        None => None,
    }
}

} // verus!
