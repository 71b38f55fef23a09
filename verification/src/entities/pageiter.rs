use vstd::prelude::*;
use crate::entities::itemsiter::ItemsIter;

verus! {

/// The stream of the items of all the pages, under the name that it had
/// before it was called [`ItemsIter`].
pub type PageIter<T> = ItemsIter<T>;

} // verus!
