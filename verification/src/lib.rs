//! A persistent singly linked list.
//!
//! A [`List`] is an immutable sequence of elements held in reference-counted
//! nodes. Prepending to a list or taking its tail yields a new handle that
//! shares every node it can with the handle it was made from; no operation
//! ever changes a node once it has been built, so each handle reads the same
//! whatever becomes of the others.
//!
//! Every handle is described by its view, the `Seq` of its elements from the
//! head on. The contracts of the operations are stated over that view through
//! the functions of [`model`], and [`laws`] proves what holds of the
//! operations taken together. Dropping a handle takes its chain apart in a
//! loop, one node at a time, so that a long list cannot exhaust the stack.
//!
//! Reference counts are not part of the model: the contracts say what each
//! handle holds, not which nodes are shared or when one is freed.

pub mod iter;
pub mod laws;
pub mod list;
pub mod model;
mod shared;

pub use iter::Iter;
pub use list::List;
