//! Resource requests: what an element or a view makes to get a resource.

#![allow(non_camel_case_types, non_snake_case)]

use vstd::prelude::*;

verus! {

/// Request native handle.
///
/// The handle is carried as the number that the engine gave; zero is no handle.
#[derive(Clone, Copy, PartialEq, Eq, Structural, Debug)]
pub struct HREQUEST(pub usize);

impl HREQUEST {
    /// No handle.
    pub fn null() -> (r: HREQUEST)
        ensures
            r.0 == 0,
    {
        HREQUEST(0)
    }

    /// Whether this is no handle.
    pub fn is_null(&self) -> (r: bool)
        ensures
            r == (self.0 == 0),
    {
        self.0 == 0
    }
}

/// The entry points of the request interface, by their addresses.
#[derive(Clone, Copy, PartialEq, Eq, Structural, Debug)]
pub struct SciterRequestAPI {
    pub RequestUse: usize,
    pub RequestUnUse: usize,
}

} // verus!
