//! Platform independent graphics interface.

#![allow(non_camel_case_types, non_snake_case)]

use vstd::prelude::*;

verus! {

/// Graphics native handle, by the number that the engine gave.
#[derive(Clone, Copy, PartialEq, Eq, Structural, Debug)]
pub struct HGFX(pub usize);

/// Image native handle, by the number that the engine gave.
#[derive(Clone, Copy, PartialEq, Eq, Structural, Debug)]
pub struct HIMG(pub usize);

/// Path native handle, by the number that the engine gave.
#[derive(Clone, Copy, PartialEq, Eq, Structural, Debug)]
pub struct HPATH(pub usize);

/// Text native handle, by the number that the engine gave.
#[derive(Clone, Copy, PartialEq, Eq, Structural, Debug)]
pub struct HTEXT(pub usize);

/// The entry points of the graphics interface, by their addresses.
#[derive(Clone, Copy, PartialEq, Eq, Structural, Debug)]
pub struct SciterGraphicsAPI {
    pub imageCreate: usize,
}

} // verus!
