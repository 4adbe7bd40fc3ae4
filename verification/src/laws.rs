//! What holds of the list operations taken together, proved over the model
//! that their contracts are written in.

use crate::model::{head_of, prepended, prepended_all, tail_n, tail_of};
use vstd::prelude::*;

verus! {

/// The head of a list is the element that was prepended to it last.
pub proof fn lemma_head_of_prepended<T>(s: Seq<T>, elem: T)
    ensures
        head_of(prepended(s, elem)) == Some(&elem),
{
}

/// After any run of one or more prepends, whatever the list they started
/// from, the head is the element of the last prepend.
pub proof fn lemma_head_after_prepends<T>(base: Seq<T>, elems: Seq<T>)
    requires
        elems.len() > 0,
    ensures
        head_of(prepended_all(base, elems)) == Some(&elems.last()),
{
}

/// Taking the tail undoes a prepend. The list that was prepended to is
/// found behind the new element as it was, whole and in order, and its head
/// is still its head.
pub proof fn lemma_tail_of_prepended<T>(s: Seq<T>, elem: T)
    ensures
        tail_of(prepended(s, elem)) == s,
        head_of(tail_of(prepended(s, elem))) == head_of(s),
{
}

/// The empty list is its own tail, however often the tail is taken.
pub proof fn lemma_tail_of_empty<T>(n: nat)
    ensures
        tail_of(Seq::<T>::empty()) == Seq::<T>::empty(),
        tail_n(Seq::<T>::empty(), n) == Seq::<T>::empty(),
    decreases n,
{
    if n > 0 {
        lemma_tail_of_empty::<T>((n - 1) as nat);
    }
}

/// A list that is not empty is its head followed by its tail, so a list and
/// its tail agree on every element that they have in common.
pub proof fn lemma_head_then_tail<T>(s: Seq<T>)
    requires
        s.len() > 0,
    ensures
        head_of(s) == Some(&s[0]),
        s == prepended(tail_of(s), s[0]),
        forall|i: int| 0 <= i < tail_of(s).len() ==> tail_of(s)[i] == s[i + 1],
{
}

/// Taking the tail `k` times after a run of prepends gives the list as it
/// was before the last `k` of them.
pub proof fn lemma_tails_undo_prepends<T>(base: Seq<T>, elems: Seq<T>, k: nat)
    requires
        k <= elems.len(),
    ensures
        tail_n(prepended_all(base, elems), k) == prepended_all(
            base,
            elems.take(elems.len() - k),
        ),
    decreases k,
{
    if k == 0 {
        assert(elems.take(elems.len() as int) =~= elems);
    } else {
        let before = elems.take(elems.len() - (k - 1));
        lemma_tails_undo_prepends(base, elems, (k - 1) as nat);
        assert(before.drop_last() =~= elems.take(elems.len() - k));
        lemma_tail_of_prepended(prepended_all(base, before.drop_last()), before.last());
    }
}

/// A list built from the empty list by `n` prepends is empty after `n` tails,
/// and stays empty under any further ones.
pub proof fn lemma_tails_reach_empty<T>(elems: Seq<T>, n: nat)
    requires
        n >= elems.len(),
    ensures
        tail_n(prepended_all(Seq::<T>::empty(), elems), n) == Seq::<T>::empty(),
    decreases n,
{
    if n == elems.len() {
        lemma_tails_undo_prepends(Seq::<T>::empty(), elems, n);
    } else {
        lemma_tails_reach_empty(elems, (n - 1) as nat);
    }
}

/// Prepending reverses: after a run of prepends the list holds their
/// elements, last one first, in front of what it held before. So a walk from
/// the head meets the elements in the opposite order to the one they were
/// prepended in.
pub proof fn lemma_prepends_reverse<T>(base: Seq<T>, elems: Seq<T>)
    ensures
        prepended_all(base, elems) == elems.reverse() + base,
    decreases elems.len(),
{
    if elems.len() > 0 {
        lemma_prepends_reverse(base, elems.drop_last());
    }
}

/// Taking the tail `n` times skips the first `n` elements, or all of them
/// where the list has fewer.
pub proof fn lemma_tails_skip<T>(s: Seq<T>, n: nat)
    ensures
        tail_n(s, n) == if n <= s.len() {
            s.skip(n as int)
        } else {
            Seq::<T>::empty()
        },
    decreases n,
{
    if n > 0 {
        lemma_tails_skip(s, (n - 1) as nat);
    }
}

/// A walk from the head meets the elements in order and then ends: the head
/// after `n` tails is element `n`, and there is none once `n` reaches the
/// length.
pub proof fn lemma_head_after_tails<T>(s: Seq<T>, n: nat)
    ensures
        head_of(tail_n(s, n)) == if n < s.len() {
            Some(&s[n as int])
        } else {
            None
        },
{
    lemma_tails_skip(s, n);
}

} // verus!
