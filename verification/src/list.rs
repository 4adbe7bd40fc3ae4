//! The list handle, its nodes, and the operations that build and read a list.

use crate::model::{head_of, prepended, tail_of};
use crate::shared::{another_ref, reclaim};
use std::mem::swap;
use std::rc::Rc;
use vstd::prelude::*;

verus! {

/// One immutable cell of a chain: an element and the shared rest of the chain.
pub(crate) struct Node<T> {
    pub(crate) elem: T,
    pub(crate) next: Option<Rc<Node<T>>>,
}

/// The elements reachable from `link`, first node first.
pub(crate) open spec fn chain<T>(link: Option<Rc<Node<T>>>) -> Seq<T>
    decreases link,
{
    match link {
        None => Seq::empty(),
        Some(node) => prepended(chain(node.next), node.elem),
    }
}

/// A second owner of the chain behind `link`. No node is copied.
fn share<T>(link: &Option<Rc<Node<T>>>) -> (shared: Option<Rc<Node<T>>>)
    ensures
        shared == *link,
{
    match link {
        Some(node) => Some(another_ref(node)),
        None => None,
    }
}

/// A handle on an immutable list. Handles made from one another share nodes;
/// a node lives for as long as a handle or another node leads to it.
pub struct List<T> {
    pub(crate) head: Option<Rc<Node<T>>>,
}

impl<T> View for List<T> {
    type V = Seq<T>;

    /// The elements of the list, head first.
    open(crate) spec fn view(&self) -> Seq<T> {
        chain(self.head)
    }
}

impl<T> List<T> {
    /// The empty list. Nothing is allocated.
    pub fn new() -> (list: Self)
        ensures
            list@ == Seq::<T>::empty(),
    {
        List { head: None }
    }

    /// The list that has `elem` in front of the elements of `self`. One node
    /// is allocated; the rest of the new list is the chain of `self`, shared.
    pub fn prepend(&self, elem: T) -> (list: List<T>)
        ensures
            list@ == prepended(self@, elem),
    {
        List { head: Some(Rc::new(Node { elem, next: share(&self.head) })) }
    }

    /// The list without its first element, sharing the chain of `self` from
    /// its second node on. The tail of the empty list is the empty list.
    pub fn tail(&self) -> (list: List<T>)
        ensures
            list@ == tail_of(self@),
    {
        match &self.head {
            Some(node) => List { head: share(&node.next) },
            None => List { head: None },
        }
    }

    /// The first element, or `None` for the empty list.
    pub fn head(&self) -> (elem: Option<&T>)
        ensures
            elem == head_of(self@),
    {
        match &self.head {
            Some(node) => Some(&node.elem),
            None => None,
        }
    }
}

/// What is left to tear down once an attempt to take sole ownership of a node
/// has been made. A node that was won gives up its successor, so that the node
/// goes away alone. A node that is still shared ends the teardown: it and
/// all that follows belong to its other owners.
fn detach<T>(claim: Result<Node<T>, Rc<Node<T>>>) -> (rest: Option<Rc<Node<T>>>)
    ensures
        rest == match claim {
            Ok(node) => node.next,
            Err(_) => None,
        },
    opens_invariants none
    no_unwind
{
    match claim {
        Ok(node) => node.next,
        Err(_) => None,
    }
}

impl<T> Drop for List<T> {
    /// Gives up this handle's claim on its chain and leaves the handle empty.
    /// The chain is taken apart in a loop: each node that this handle alone
    /// owned is parted from its successor before it goes away, so that no
    /// node's end sets off the next one's. The loop stops at the first node
    /// that another owner still holds, and it ends because each step leaves a
    /// shorter chain to look at.
    fn drop(&mut self)
        ensures
            final(self)@ == Seq::<T>::empty(),
        opens_invariants none
        no_unwind
    {
        let mut cursor: Option<Rc<Node<T>>> = None;
        swap(&mut cursor, &mut self.head);
        loop
            invariant
                self.head is None,
            decreases chain(cursor).len(),
        {
            match cursor {
                Some(link) => {
                    cursor = detach(reclaim(link));
                },
                None => {
                    break;
                },
            }
        }
    }
}

} // verus!
