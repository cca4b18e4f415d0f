//! A bar identified by a number only.

use vstd::prelude::*;
use crate::error::BarError;

verus! {

/// A bar that carries a number.
#[derive(Debug)]
pub struct Bar {
    pub a: u32,
}

impl Bar {
    /// A bar carrying `a`; making one cannot fail.
    pub fn new(a: u32) -> (r: Result<Bar, BarError>)
        ensures
            r matches Ok(bar) && bar.a == a,
    {
        Ok(Bar { a })
    }
}

} // verus!
