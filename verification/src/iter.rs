//! A read-only cursor over the elements of a list.

use crate::list::{chain, List, Node};
use crate::model::{head_of, prepended, tail_of};
use std::rc::Rc;
use vstd::prelude::*;

verus! {

/// A cursor that hands out the elements of a list from the head on. It
/// borrows the list it was made from, owns no node, and cannot outlive the
/// handle that it borrows.
pub struct Iter<'a, T> {
    next: Option<&'a Node<T>>,
}

impl<'a, T> View for Iter<'a, T> {
    type V = Seq<T>;

    /// The elements that the cursor has yet to hand out, next one first.
    closed spec fn view(&self) -> Seq<T> {
        match self.next {
            None => Seq::empty(),
            Some(node) => prepended(chain(node.next), node.elem),
        }
    }
}

/// The node that `link` leads to, borrowed.
fn node_of<'a, T>(link: &'a Option<Rc<Node<T>>>) -> (node: Option<&'a Node<T>>)
    ensures
        node == match *link {
            Some(rc) => Some(&*rc),
            None => None,
        },
{
    match link {
        Some(rc) => Some(&**rc),
        None => None,
    }
}

impl<T> List<T> {
    /// A cursor at the head of the list. Each call gives a fresh cursor.
    pub fn iter(&self) -> (it: Iter<'_, T>)
        ensures
            it@ == self@,
    {
        Iter { next: node_of(&self.head) }
    }
}

impl<'a, T> Iter<'a, T> {
    /// Hands out the next element and moves past it, or returns `None` once
    /// every element has been handed out and from then on.
    pub fn next(&mut self) -> (item: Option<&'a T>)
        ensures
            item == head_of(old(self)@),
            final(self)@ == tail_of(old(self)@),
    {
        match self.next {
            Some(node) => {
                self.next = node_of(&node.next);
                Some(&node.elem)
            },
            None => None,
        }
    }
}

} // verus!
