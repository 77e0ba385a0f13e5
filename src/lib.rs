//! Views of slices that are known to hold at least `N` elements.
//!
//! A view is built from a slice only once its length has been checked, and it then
//! offers the operations that the minimum makes safe (such as the first and last
//! element of a view that holds at least one) without any further check.

pub mod compare;
pub mod view;
pub mod view_mut;

pub use view::{Slice1, SliceN};
pub use view_mut::{from_mut, Slice1Mut, SliceNMut};
