//! A bar that shows one value of any type.

use vstd::prelude::*;

verus! {

/// A bar holding its contents.
pub struct Bar<T> {
    pub contents: T,
}

impl<T> Bar<T> {
    /// A bar showing `contents`.
    pub fn new(contents: T) -> (bar: Bar<T>)
        ensures
            bar.contents == contents,
    {
        Bar { contents }
    }
}

} // verus!
