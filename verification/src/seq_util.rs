//! Finding and summing over sequences by a predicate.
//!
//! The ledger stores its records in vectors and locates them by identity
//! keys.  `find_index` is the specification of that search — the index of the
//! first element satisfying a predicate, or `-1` — and `sum_by` is the
//! specification of an aggregate — the sum of a measure over all elements.
//! The lemmas describe how both behave under `push` and `update`, the only
//! ways the ledger grows or changes its record sequences.

use vstd::prelude::*;

verus! {

/// Index of the first element of `s` satisfying `f`, or `-1` if none does.
pub open spec fn find_index<T>(s: Seq<T>, f: spec_fn(T) -> bool) -> int
    decreases s.len(),
{
    if s.len() == 0 {
        -1
    } else if f(s.first()) {
        0
    } else {
        let rest = find_index(s.drop_first(), f);
        if rest == -1 {
            -1
        } else {
            rest + 1
        }
    }
}

/// Sum of `f` over all elements of `s`.
pub open spec fn sum_by<T>(s: Seq<T>, f: spec_fn(T) -> int) -> int
    decreases s.len(),
{
    if s.len() == 0 {
        0
    } else {
        sum_by(s.drop_last(), f) + f(s.last())
    }
}

/// What `find_index` returns: an in-range index satisfying `f`, preceded by
/// no such index, or `-1` exactly when no element satisfies `f`.
pub proof fn lemma_find_index<T>(s: Seq<T>, f: spec_fn(T) -> bool)
    ensures
        -1 <= find_index(s, f) < s.len(),
        find_index(s, f) >= 0 ==> f(s[find_index(s, f)]),
        forall|j: int| 0 <= j < find_index(s, f) ==> !#[trigger] f(s[j]),
        find_index(s, f) == -1 <==> (forall|j: int| 0 <= j < s.len() ==> !#[trigger] f(s[j])),
    decreases s.len(),
{
    if s.len() == 0 {
    } else if f(s.first()) {
    } else {
        lemma_find_index(s.drop_first(), f);
        let rest = find_index(s.drop_first(), f);
        assert forall|j: int| 1 <= j < s.len() implies s.drop_first()[j - 1] == s[j] by {}
        if rest >= 0 {
            assert(f(s[rest + 1]));
        }
        assert forall|j: int| 0 <= j < find_index(s, f) implies !f(s[j]) by {
            if j > 0 {
                assert(!f(s.drop_first()[j - 1]));
            }
        }
        if rest == -1 {
            assert forall|j: int| 0 <= j < s.len() implies !f(s[j]) by {
                if j > 0 {
                    assert(!f(s.drop_first()[j - 1]));
                }
            }
        }
    }
}

/// Replacing an element without changing whether it satisfies `f` leaves the
/// first found index unchanged.
pub proof fn lemma_find_index_update<T>(s: Seq<T>, i: int, x: T, f: spec_fn(T) -> bool)
    requires
        0 <= i < s.len(),
        f(x) == f(s[i]),
    ensures
        find_index(s.update(i, x), f) == find_index(s, f),
    decreases s.len(),
{
    let t = s.update(i, x);
    if i == 0 {
        assert(t.first() == x);
        if !f(s.first()) {
            assert(t.drop_first() =~= s.drop_first());
        }
    } else {
        assert(t.first() == s.first());
        if !f(s.first()) {
            assert(t.drop_first() =~= s.drop_first().update(i - 1, x));
            assert(s.drop_first()[i - 1] == s[i]);
            lemma_find_index_update(s.drop_first(), i - 1, x, f);
        }
    }
}

/// Appending an element changes the first found index only when nothing
/// satisfied `f` before: the new element's index if it satisfies `f`, else
/// still `-1`.
pub proof fn lemma_find_index_push<T>(s: Seq<T>, x: T, f: spec_fn(T) -> bool)
    ensures
        find_index(s.push(x), f) == (if find_index(s, f) >= 0 {
            find_index(s, f)
        } else if f(x) {
            s.len() as int
        } else {
            -1
        }),
    decreases s.len(),
{
    let t = s.push(x);
    assert(t.len() == s.len() + 1);
    if s.len() == 0 {
        assert(t.first() == x);
        if f(x) {
            assert(find_index(t, f) == 0);
        } else {
            assert(t.drop_first() =~= Seq::<T>::empty());
            assert(find_index(t.drop_first(), f) == -1);
            assert(find_index(t, f) == -1);
        }
    } else {
        assert(t.first() == s.first());
        if f(s.first()) {
            assert(find_index(t, f) == 0);
            assert(find_index(s, f) == 0);
        } else {
            assert(t.drop_first() =~= s.drop_first().push(x));
            lemma_find_index_push(s.drop_first(), x, f);
            assert(s.drop_first().len() == s.len() - 1);
            assert(find_index(t, f) == (if find_index(t.drop_first(), f) == -1 {
                -1int
            } else {
                find_index(t.drop_first(), f) + 1
            }));
        }
    }
}

/// Appending an element adds its measure to the sum.
pub proof fn lemma_sum_by_push<T>(s: Seq<T>, x: T, f: spec_fn(T) -> int)
    ensures
        sum_by(s.push(x), f) == sum_by(s, f) + f(x),
{
    assert(s.push(x).drop_last() =~= s);
    assert(s.push(x).last() == x);
}

/// Replacing an element adjusts the sum by the difference of the measures.
pub proof fn lemma_sum_by_update<T>(s: Seq<T>, i: int, x: T, f: spec_fn(T) -> int)
    requires
        0 <= i < s.len(),
    ensures
        sum_by(s.update(i, x), f) == sum_by(s, f) - f(s[i]) + f(x),
    decreases s.len(),
{
    let t = s.update(i, x);
    if i == s.len() - 1 {
        assert(t.drop_last() =~= s.drop_last());
        assert(t.last() == x);
    } else {
        assert(t.drop_last() =~= s.drop_last().update(i, x));
        assert(t.last() == s.last());
        assert(s.drop_last()[i] == s[i]);
        lemma_sum_by_update(s.drop_last(), i, x, f);
    }
}

/// A sum of non-negative measures is at least any single element's measure.
pub proof fn lemma_sum_by_member<T>(s: Seq<T>, i: int, f: spec_fn(T) -> int)
    requires
        0 <= i < s.len(),
        forall|j: int| 0 <= j < s.len() ==> #[trigger] f(s[j]) >= 0,
    ensures
        sum_by(s, f) >= f(s[i]),
    decreases s.len(),
{
    assert forall|j: int| 0 <= j < s.len() - 1 implies #[trigger] f(s.drop_last()[j]) >= 0 by {
        assert(s.drop_last()[j] == s[j]);
    }
    if i == s.len() - 1 {
        lemma_sum_by_nonneg(s.drop_last(), f);
    } else {
        assert(s.drop_last()[i] == s[i]);
        lemma_sum_by_member(s.drop_last(), i, f);
        assert(f(s.last()) >= 0);
    }
}

/// A sum of non-negative measures is non-negative.
pub proof fn lemma_sum_by_nonneg<T>(s: Seq<T>, f: spec_fn(T) -> int)
    requires
        forall|j: int| 0 <= j < s.len() ==> #[trigger] f(s[j]) >= 0,
    ensures
        sum_by(s, f) >= 0,
    decreases s.len(),
{
    if s.len() > 0 {
        assert forall|j: int| 0 <= j < s.len() - 1 implies #[trigger] f(s.drop_last()[j]) >= 0 by {
            assert(s.drop_last()[j] == s[j]);
        }
        lemma_sum_by_nonneg(s.drop_last(), f);
        assert(f(s.last()) >= 0);
    }
}

/// A sum of all-zero measures is zero.
pub proof fn lemma_sum_by_zero<T>(s: Seq<T>, f: spec_fn(T) -> int)
    requires
        forall|j: int| 0 <= j < s.len() ==> #[trigger] f(s[j]) == 0,
    ensures
        sum_by(s, f) == 0,
    decreases s.len(),
{
    if s.len() > 0 {
        assert forall|j: int| 0 <= j < s.len() - 1 implies #[trigger] f(s.drop_last()[j]) == 0 by {
            assert(s.drop_last()[j] == s[j]);
        }
        lemma_sum_by_zero(s.drop_last(), f);
        assert(f(s.last()) == 0);
    }
}

} // verus!
