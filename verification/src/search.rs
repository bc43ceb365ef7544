//! The first index with a property, and texts in ascending order.

use crate::text;
use vstd::prelude::*;

verus! {

/// The first index from `i` on and below `n` with the property, or `n`.
pub open spec fn first_from(i: int, n: int, holds: spec_fn(int) -> bool) -> int
    decreases n - i,
{
    if i >= n {
        n
    } else if holds(i) {
        i
    } else {
        first_from(i + 1, n, holds)
    }
}

/// The first index below `n` with the property, or `n`.
pub open spec fn first_index(n: int, holds: spec_fn(int) -> bool) -> int {
    first_from(0, n, holds)
}

proof fn lemma_first_from(i: int, n: int, holds: spec_fn(int) -> bool, k: int)
    requires
        0 <= i <= k <= n,
        forall|j: int| i <= j < k ==> !(#[trigger] holds(j)),
        k < n ==> holds(k),
    ensures
        first_from(i, n, holds) == k,
    decreases n - i,
{
    if i < k {
        lemma_first_from(i + 1, n, holds, k);
    }
}

/// The first index with a property is the only one with nothing before it.
pub proof fn lemma_first_index(n: int, holds: spec_fn(int) -> bool, k: int)
    requires
        0 <= k <= n,
        forall|j: int| 0 <= j < k ==> !(#[trigger] holds(j)),
        k < n ==> holds(k),
    ensures
        first_index(n, holds) == k,
{
    lemma_first_from(0, n, holds, k);
}

proof fn lemma_first_from_bounds(i: int, n: int, holds: spec_fn(int) -> bool)
    requires
        0 <= i <= n,
    ensures
        i <= first_from(i, n, holds) <= n,
        first_from(i, n, holds) < n ==> holds(first_from(i, n, holds)),
        forall|j: int| i <= j < first_from(i, n, holds) ==> !(#[trigger] holds(j)),
    decreases n - i,
{
    if i < n && !holds(i) {
        lemma_first_from_bounds(i + 1, n, holds);
    }
}

/// What the first index with a property is.
pub proof fn lemma_first_index_bounds(n: int, holds: spec_fn(int) -> bool)
    requires
        0 <= n,
    ensures
        0 <= first_index(n, holds) <= n,
        first_index(n, holds) < n ==> holds(first_index(n, holds)),
        forall|j: int| 0 <= j < first_index(n, holds) ==> !(#[trigger] holds(j)),
{
    lemma_first_from_bounds(0, n, holds);
}

/// The indices below `n` with the property, in ascending order.
pub open spec fn indices(n: int, holds: spec_fn(int) -> bool) -> Seq<int>
    decreases n,
{
    if n <= 0 {
        Seq::empty()
    } else {
        let rest = indices(n - 1, holds);
        if holds(n - 1) {
            rest.push(n - 1)
        } else {
            rest
        }
    }
}

/// An index is listed exactly if it has the property.
pub proof fn lemma_indices(n: int, holds: spec_fn(int) -> bool, k: int)
    ensures
        indices(n, holds).contains(k) <==> 0 <= k < n && holds(k),
    decreases n,
{
    if n > 0 {
        let rest = indices(n - 1, holds);
        lemma_indices(n - 1, holds, k);
        if holds(n - 1) {
            let all = rest.push(n - 1);
            assert(all[rest.len() as int] == n - 1);
            if rest.contains(k) {
                let i = choose|i: int| 0 <= i < rest.len() && rest[i] == k;
                assert(all[i] == k);
            }
            if all.contains(k) {
                let i = choose|i: int| 0 <= i < all.len() && all[i] == k;
                if i < rest.len() {
                    assert(rest[i] == k);
                }
            }
        }
    }
}

/// The indices are listed in ascending order.
pub proof fn lemma_indices_ascend(n: int, holds: spec_fn(int) -> bool)
    ensures
        forall|i: int, j: int|
            0 <= i < j < indices(n, holds).len() ==> #[trigger] indices(n, holds)[i]
                < #[trigger] indices(n, holds)[j],
        forall|i: int|
            0 <= i < indices(n, holds).len() ==> 0 <= #[trigger] indices(n, holds)[i] < n,
    decreases n,
{
    if n > 0 {
        lemma_indices_ascend(n - 1, holds);
        let rest = indices(n - 1, holds);
        let all = indices(n, holds);
        assert forall|i: int| 0 <= i < all.len() implies 0 <= #[trigger] all[i] < n by {
            if i < rest.len() {
                assert(all[i] == rest[i]);
            }
        }
        assert forall|i: int, j: int| 0 <= i < j < all.len() implies #[trigger] all[i]
            < #[trigger] all[j] by {
            assert(all[i] == rest[i]);
            if j < rest.len() {
                assert(all[j] == rest[j]);
            }
        }
    }
}

/// Each text comes strictly before the next ones.
pub open spec fn ascending(list: Seq<Seq<char>>) -> bool {
    forall|i: int, j: int|
        0 <= i < j < list.len() ==> text::before(#[trigger] list[i], #[trigger] list[j])
}

/// Where `s` belongs in a list in ascending order: behind what comes before it.
pub open spec fn rank(list: Seq<Seq<char>>, s: Seq<char>) -> int {
    first_index(list.len() as int, |i: int| !text::before(list[i], s))
}

/// The list with `s` in its place, unless it was there.
pub open spec fn with_text(list: Seq<Seq<char>>, s: Seq<char>) -> Seq<Seq<char>> {
    if list.contains(s) {
        list
    } else {
        list.insert(rank(list, s), s)
    }
}

/// Whether `s` is in the list.
pub fn contains_text(list: &Vec<String>, s: &str) -> (r: bool)
    ensures
        r == text::texts(list@).contains(s@),
{
    let mut i: usize = 0;
    while i < list.len()
        invariant
            i <= list.len(),
            forall|j: int| 0 <= j < i ==> #[trigger] list@[j]@ != s@,
        decreases list.len() - i,
    {
        if text::same(list[i].as_str(), s) {
            assert(text::texts(list@)[i as int] == s@);
            return true;
        }
        i = i + 1;
    }
    assert forall|j: int| 0 <= j < text::texts(list@).len() implies text::texts(list@)[j] != s@ by {
        assert(list@[j]@ != s@);
    }
    false
}

/// Puts `s` in its place in the list; `false` if it was there.
pub fn insert_text(list: &mut Vec<String>, s: &str) -> (added: bool)
    ensures
        added == !text::texts(old(list)@).contains(s@),
        text::texts(final(list)@) == with_text(text::texts(old(list)@), s@),
{
    if contains_text(list, s) {
        return false;
    }
    let ghost before_list = text::texts(list@);
    let ghost holds = |i: int| !text::before(before_list[i], s@);
    let mut i: usize = 0;
    while i < list.len() && text::less(list[i].as_str(), s)
        invariant
            i <= list.len(),
            before_list == text::texts(list@),
            holds == (|i: int| !text::before(before_list[i], s@)),
            forall|j: int| 0 <= j < i ==> !(#[trigger] holds(j)),
        decreases list.len() - i,
    {
        i = i + 1;
    }
    proof {
        assert(i < list@.len() ==> holds(i as int));
        lemma_first_index(before_list.len() as int, holds, i as int);
    }
    let item = s.to_owned();
    let ghost prior = list@;
    list.insert(i, item);
    assert(text::texts(list@) =~= before_list.insert(i as int, s@));
    true
}

/// No text comes before itself.
pub proof fn lemma_before_irreflexive(a: Seq<char>)
    ensures
        !text::before(a, a),
    decreases a.len(),
{
    if a.len() > 0 {
        lemma_before_irreflexive(a.drop_first());
    }
}

/// Of two different texts one comes before the other.
pub proof fn lemma_before_total(a: Seq<char>, b: Seq<char>)
    ensures
        a != b ==> text::before(a, b) || text::before(b, a),
    decreases a.len(),
{
    if a.len() > 0 && b.len() > 0 {
        if a[0] == b[0] {
            lemma_before_total(a.drop_first(), b.drop_first());
            if a != b {
                assert(a.drop_first() != b.drop_first()) by {
                    if a.drop_first() == b.drop_first() {
                        assert(a =~= seq![a[0]] + a.drop_first());
                        assert(b =~= seq![b[0]] + b.drop_first());
                    }
                }
            }
        }
    } else if a.len() == 0 && b.len() == 0 {
        assert(a =~= b);
    }
}

/// The order of texts is transitive.
pub proof fn lemma_before_transitive(a: Seq<char>, b: Seq<char>, c: Seq<char>)
    requires
        text::before(a, b),
        text::before(b, c),
    ensures
        text::before(a, c),
    decreases a.len(),
{
    if a.len() > 0 && b.len() > 0 && c.len() > 0 {
        if a[0] == b[0] && b[0] == c[0] {
            lemma_before_transitive(a.drop_first(), b.drop_first(), c.drop_first());
        }
    }
}

/// Putting a text in its place keeps the list in ascending order.
pub proof fn insertion_keeps_order(list: Seq<Seq<char>>, s: Seq<char>)
    requires
        ascending(list),
    ensures
        ascending(with_text(list, s)),
        with_text(list, s).contains(s),
        forall|t: Seq<char>| list.contains(t) ==> with_text(list, s).contains(t),
        forall|t: Seq<char>| with_text(list, s).contains(t) ==> t == s || list.contains(t),
{
    if !list.contains(s) {
        let holds = |i: int| !text::before(list[i], s);
        let k = rank(list, s);
        lemma_first_index_bounds(list.len() as int, holds);
        let new = list.insert(k, s);
        assert(new[k] == s);
        assert forall|t: Seq<char>| list.contains(t) implies new.contains(t) by {
            let i = choose|i: int| 0 <= i < list.len() && list[i] == t;
            if i < k {
                assert(new[i] == t);
            } else {
                assert(new[i + 1] == t);
            }
        }
        assert forall|t: Seq<char>| new.contains(t) implies t == s || list.contains(t) by {
            let i = choose|i: int| 0 <= i < new.len() && new[i] == t;
            if i < k {
                assert(list[i] == t);
            } else if i > k {
                assert(list[i - 1] == t);
            }
        }
        assert forall|j: int| k <= j < list.len() implies text::before(s, #[trigger] list[j]) by {
            assert(holds(k));
            assert(list[k] != s);
            lemma_before_total(s, list[k]);
            if k < j {
                lemma_before_transitive(s, list[k], list[j]);
            }
        }
        assert forall|i: int, j: int| 0 <= i < j < new.len() implies text::before(
            #[trigger] new[i],
            #[trigger] new[j],
        ) by {
            if j < k {
                assert(new[i] == list[i] && new[j] == list[j]);
            } else if j == k {
                assert(!holds(i));
                assert(new[i] == list[i]);
            } else if i < k {
                assert(new[i] == list[i] && new[j] == list[j - 1]);
            } else if i == k {
                assert(new[j] == list[j - 1]);
            } else {
                assert(new[i] == list[i - 1] && new[j] == list[j - 1]);
            }
        }
    }
}

/// Putting a text in its place keeps what was in the list, in its order, and adds just that
/// text, once, or nothing if it was there.
pub proof fn insertion_adds_just_that(list: Seq<Seq<char>>, s: Seq<char>)
    ensures
        list.contains(s) ==> with_text(list, s) == list,
        !list.contains(s) ==> with_text(list, s).len() == list.len() + 1 && exists|k: int|
            0 <= k <= list.len() && with_text(list, s) == #[trigger] list.insert(k, s),
        forall|t: Seq<char>| #[trigger]
            with_text(list, s).contains(t) <==> t == s || list.contains(t),
{
    if !list.contains(s) {
        let holds = |i: int| !text::before(list[i], s);
        let k = rank(list, s);
        lemma_first_index_bounds(list.len() as int, holds);
        let new = list.insert(k, s);
        assert(new[k] == s);
        assert(with_text(list, s) == list.insert(k, s));
        assert forall|t: Seq<char>| #[trigger] new.contains(t) <==> t == s || list.contains(t) by {
            if list.contains(t) {
                let i = choose|i: int| 0 <= i < list.len() && list[i] == t;
                if i < k {
                    assert(new[i] == t);
                } else {
                    assert(new[i + 1] == t);
                }
            }
            if new.contains(t) {
                let i = choose|i: int| 0 <= i < new.len() && new[i] == t;
                if i < k {
                    assert(list[i] == t);
                } else if i > k {
                    assert(list[i - 1] == t);
                }
            }
        }
    }
}

/// One text comes before another if they agree up to a point where the first ends, or where
/// it has the lower character, and in no other case.
pub proof fn order_of_texts(a: Seq<char>, b: Seq<char>, n: int)
    requires
        0 <= n <= a.len(),
        n <= b.len(),
        forall|i: int| 0 <= i < n ==> #[trigger] a[i] == b[i],
        n < a.len() && n < b.len() ==> a[n] != b[n],
    ensures
        text::before(a, b) <==> n < b.len() && (n == a.len() || a[n] < b[n]),
    decreases n,
{
    if n > 0 {
        assert(a[0] == b[0]);
        let x = a.drop_first();
        let y = b.drop_first();
        assert forall|i: int| 0 <= i < n - 1 implies #[trigger] x[i] == y[i] by {
            assert(x[i] == a[i + 1] && y[i] == b[i + 1]);
        }
        if n < a.len() && n < b.len() {
            assert(x[n - 1] == a[n] && y[n - 1] == b[n]);
        }
        order_of_texts(x, y, n - 1);
    }
}

} // verus!
