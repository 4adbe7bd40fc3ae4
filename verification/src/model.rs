//! The mathematical model of the list operations: what each of them does to
//! the sequence of elements that a list holds.

use vstd::prelude::*;

verus! {

/// The contents of a list after `elem` has been put in front of `s`.
pub open spec fn prepended<T>(s: Seq<T>, elem: T) -> Seq<T> {
    seq![elem] + s
}

/// The contents of a list without its first element; the empty list has an
/// empty tail.
pub open spec fn tail_of<T>(s: Seq<T>) -> Seq<T> {
    if s.len() == 0 {
        s
    } else {
        s.drop_first()
    }
}

/// The first element of a list, if it has one, as the borrowed value that
/// reading a list gives.
pub open spec fn head_of<'a, T>(s: Seq<T>) -> Option<&'a T> {
    if s.len() == 0 {
        None
    } else {
        Some(&s[0])
    }
}

/// The contents of a list after the elements of `elems` have been put in
/// front of `base` one at a time, `elems[0]` first, so that the last of them
/// ends up at the head.
pub open spec fn prepended_all<T>(base: Seq<T>, elems: Seq<T>) -> Seq<T>
    decreases elems.len(),
{
    if elems.len() == 0 {
        base
    } else {
        prepended(prepended_all(base, elems.drop_last()), elems.last())
    }
}

/// The contents of a list after its tail has been taken `n` times.
pub open spec fn tail_n<T>(s: Seq<T>, n: nat) -> Seq<T>
    decreases n,
{
    if n == 0 {
        s
    } else {
        tail_of(tail_n(s, (n - 1) as nat))
    }
}

} // verus!
