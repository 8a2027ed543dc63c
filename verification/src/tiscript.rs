//! The virtual machine of the script.

#![allow(non_camel_case_types, non_snake_case)]

use crate::scdef::SCRIPT_RUNTIME_FEATURES;
use crate::sctiscript::{tiscript_value, HVM};
use vstd::prelude::*;

verus! {

/// The features that a virtual machine gets where none are asked for: all of them.
pub const DEFAULT_FEATURES: u32 = 0xFFFF_FFFF;

/// The size of the heap that a virtual machine gets where none is asked for.
pub const DEFAULT_HEAP_SIZE: u32 = 1048576;

/// The size of the stack that a virtual machine gets where none is asked for.
pub const DEFAULT_STACK_SIZE: u32 = 65536;

/// A value of the script.
#[derive(Clone, Copy, PartialEq, Eq, Structural, Debug)]
pub struct Value(pub tiscript_value);

/// A virtual machine of the script.
#[derive(PartialEq, Eq, Structural, Debug)]
pub struct Vm(HVM);

impl View for Vm {
    type V = HVM;

    closed spec fn view(&self) -> HVM {
        self.0
    }
}

/// All that the engine is handed to create a virtual machine.
#[derive(Clone, Copy, PartialEq, Eq, Structural, Debug)]
pub struct VmRequest {
    pub features: u32,
    pub heap_size: u32,
    pub stack_size: u32,
}

/// What the engine is handed to create a virtual machine: what was asked
/// for, and where nothing was asked for, all features, a heap of one megabyte
/// and a stack of 64 kilobytes.
pub open spec fn spec_create_vm(features: Option<u32>, heap_size: Option<u32>, stack_size: Option<u32>) -> VmRequest {
    VmRequest {
        features: match features {
            Some(f) => f,
            None => DEFAULT_FEATURES,
        },
        heap_size: match heap_size {
            Some(n) => n,
            None => DEFAULT_HEAP_SIZE,
        },
        stack_size: match stack_size {
            Some(n) => n,
            None => DEFAULT_STACK_SIZE,
        },
    }
}

/// Create a new VM, the first half: what the engine is to be handed.
pub fn create_vm(features: Option<u32>, heap_size: Option<u32>, stack_size: Option<u32>) -> (r: VmRequest)
    ensures
        r == spec_create_vm(features, heap_size, stack_size),
{
    VmRequest {
        features: match features {
            Some(f) => f,
            None => DEFAULT_FEATURES,
        },
        heap_size: match heap_size {
            Some(n) => n,
            None => DEFAULT_HEAP_SIZE,
        },
        stack_size: match stack_size {
            Some(n) => n,
            None => DEFAULT_STACK_SIZE,
        },
    }
}

/// The handle that the engine answered with, if it is one: the engine answers
/// with no handle where it has no virtual machine to give.
pub fn get_current_vm(vm: HVM) -> (r: Option<HVM>)
    ensures
        r == if vm.0 != 0 { Some(vm) } else { None::<HVM> },
{
    if !vm.is_null() {
        Some(vm)
    } else {
        None
    }
}

impl Vm {
    /// The virtual machine behind a handle.
    pub fn from(vm: HVM) -> (r: Vm)
        requires
            vm.0 != 0,
        ensures
            r@ == vm,
    {
        Vm(vm)
    }

    /// A new virtual machine with all that a machine gets by default: what the
    /// engine is to be handed for it.
    pub fn new() -> (r: VmRequest)
        ensures
            r == spec_create_vm(None, None, None),
    {
        create_vm(None, None, None)
    }

    /// A new virtual machine with the given features: what the engine is to
    /// be handed for it.
    pub fn with_features(features: SCRIPT_RUNTIME_FEATURES) -> (r: VmRequest)
        ensures
            r == spec_create_vm(Some(features.spec_code() as u32), None, None),
    {
        create_vm(Some(features.code()), None, None)
    }

    /// The virtual machine of the current thread, from the handle that the
    /// engine answered with.
    pub fn current(vm: HVM) -> (r: Option<Vm>)
        ensures
            r is Some == (vm.0 != 0),
            r matches Some(m) ==> m@ == vm,
    {
        match get_current_vm(vm) {
            Some(h) => Some(Vm(h)),
            None => None,
        }
    }

    /// The handle of the virtual machine.
    pub fn as_handle(&self) -> (r: HVM)
        ensures
            r == self@,
    {
        self.0
    }
}

} // verus!
