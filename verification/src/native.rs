//! What the descriptors refer to in the native runtime: the classes whose
//! objects they describe, and handles to objects that they only point at.

use vstd::prelude::*;
use std::convert::Infallible;

verus! {

/// The native class of compute pipeline descriptors.
///
/// Like the other class types of this module it has no value: its one variant
/// cannot be built. It gives pointers to objects of that class a type of
/// their own.
pub enum MTLComputePipelineDescriptor {
    Opaque(Infallible),
}

/// The native class of compiled compute pipelines.
pub enum MTLComputePipelineState {
    Opaque(Infallible),
}

/// The native class of the buffer slots of a pipeline descriptor.
pub enum MTLPipelineBufferDescriptorArray {
    Opaque(Infallible),
}

/// The native class of one buffer slot of a pipeline descriptor.
pub enum MTLPipelineBufferDescriptor {
    Opaque(Infallible),
}

/// The native class of stage input descriptors.
pub enum MTLStageInputOutputDescriptor {
    Opaque(Infallible),
}

/// The native class of the attribute slots of a stage input descriptor.
pub enum MTLAttributeDescriptorArray {
    Opaque(Infallible),
}

/// The native class of one attribute of a stage input descriptor.
pub enum MTLAttributeDescriptor {
    Opaque(Infallible),
}

/// The native class of the buffer layout slots of a stage input descriptor.
pub enum MTLBufferLayoutDescriptorArray {
    Opaque(Infallible),
}

/// The native class of one buffer layout of a stage input descriptor.
pub enum MTLBufferLayoutDescriptor {
    Opaque(Infallible),
}

/// The number of slots that an indexed collection of descriptors has where
/// no other number is asked for: the slot limit of current devices.
pub const DEFAULT_SLOT_LIMIT: usize = 31;

/// A handle to a compiled function of the native runtime: the address of the
/// function object, which is never null.
#[derive(Clone, Copy, PartialEq, Eq, Debug)]
pub struct Function {
    address: usize,
}

/// A function handle as it is seen through a reference.
pub type FunctionRef = Function;

impl View for Function {
    type V = usize;

    closed spec fn view(&self) -> usize {
        self.address
    }
}

impl Function {
    #[verifier::type_invariant]
    spec fn non_null(self) -> bool {
        self.address != 0
    }

    /// The handle for the function object at `address`; none for the null
    /// address.
    pub fn from_address(address: usize) -> (r: Option<Function>)
        ensures
            r is Some <==> address != 0,
            r matches Some(f) ==> f@ == address,
    {
        if address == 0 {
            None
        } else {
            Some(Function { address })
        }
    }
}

impl FunctionRef {
    /// The address of the function object.
    pub fn address(&self) -> (r: usize)
        ensures
            r == self@,
            r != 0,
    {
        proof {
            use_type_invariant(self);
        }
        self.address
    }
}

} // verus!
