//! Classic list exercises over a singly-linked, recursively defined list:
//! last element, last but one, k-th element, length and reverse, with
//! conversion to and from `Vec` and a one-shot cursor over the elements.

pub mod laws;
pub mod list;
pub mod ops;

pub use list::{List, ListIter};
pub use ops::{kth, kth_of, last, last_but_one, last_but_one_of, last_of, length, reverse};
