//! The virtual machine of the script: the plain data of its interface.

#![allow(non_camel_case_types, non_snake_case)]

use vstd::prelude::*;

verus! {

/// VM native handle.
///
/// The handle is carried as the number that the engine gave; zero is no handle.
#[derive(Clone, Copy, PartialEq, Eq, Structural, Debug)]
pub struct HVM(pub usize);

impl HVM {
    /// Whether this is no handle.
    pub fn is_null(&self) -> (r: bool)
        ensures
            r == (self.0 == 0),
    {
        self.0 == 0
    }
}

/// A value of the script, as the virtual machine holds it.
pub type tiscript_value = u64;

/// A stream of the script, by the address of its table of functions.
#[derive(Clone, Copy, PartialEq, Eq, Structural, Debug)]
pub struct tiscript_stream {
    pub vtbl: usize,
}

/// A value that is pinned in a virtual machine.
#[derive(Clone, Copy, PartialEq, Eq, Structural, Debug)]
pub struct tiscript_pvalue {
    pub val: tiscript_value,
    pub vm: HVM,
    pub d1: usize,
    pub d2: usize,
}

/// The definition of a native method; its name and its handler by their addresses.
#[derive(Clone, Copy, PartialEq, Eq, Structural, Debug)]
pub struct tiscript_method_def {
    pub dispatch: usize,
    pub name: usize,
    pub handler: usize,
    pub tag: usize,
    pub payload: tiscript_value,
}

/// The definition of a native property; its name, getter and setter by their addresses.
#[derive(Clone, Copy, PartialEq, Eq, Structural, Debug)]
pub struct tiscript_prop_def {
    pub dispatch: usize,
    pub name: usize,
    pub getter: usize,
    pub setter: usize,
    pub tag: usize,
}

/// The type of a native constant.
#[derive(Clone, Copy, PartialEq, Eq, Structural, Debug)]
pub enum tiscript_const_type {
    Int,
    Float,
    String,
}

impl tiscript_const_type {
    /// The number that the engine uses for this variant.
    pub open spec fn spec_code(self) -> int {
        match self {
            tiscript_const_type::Int => 0,
            tiscript_const_type::Float => 1,
            tiscript_const_type::String => 2,
        }
    }

    /// The number that the engine uses for this variant.
    pub fn code(self) -> (code: u32)
        ensures
            code == self.spec_code(),
    {
        match self {
            tiscript_const_type::Int => 0,
            tiscript_const_type::Float => 1,
            tiscript_const_type::String => 2,
        }
    }
}

} // verus!
