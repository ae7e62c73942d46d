//! The buffer layouts of a stage input: for each buffer, the distance from
//! one element to the next, and when the fetch moves on to the next element.

use vstd::prelude::*;
use crate::encoding::MTLStepFunction;

verus! {

/// The description of one buffer layout: the distance in bytes from one
/// element of the buffer to the next, and when and how often the fetch moves
/// on to the next element.
#[derive(Clone, Copy, PartialEq, Eq, Structural, Debug)]
pub struct BufferLayoutDescriptor {
    pub step_function: MTLStepFunction,
    pub step_rate: u64,
    pub stride: u64,
}

/// A buffer layout descriptor as it is seen through a reference.
pub type BufferLayoutDescriptorRef = BufferLayoutDescriptor;

impl BufferLayoutDescriptor {
    /// The description of a buffer layout that was never configured: it steps
    /// once for every vertex and has no stride yet.
    pub open spec fn initial() -> Self {
        BufferLayoutDescriptor { step_function: MTLStepFunction::PerVertex, step_rate: 1, stride: 0 }
    }

    /// This description with another step function.
    pub open spec fn with_step_function(self, step_function: MTLStepFunction) -> Self {
        BufferLayoutDescriptor { step_function, ..self }
    }

    /// This description with another step rate.
    pub open spec fn with_step_rate(self, step_rate: u64) -> Self {
        BufferLayoutDescriptor { step_rate, ..self }
    }

    /// This description with another stride.
    pub open spec fn with_stride(self, stride: u64) -> Self {
        BufferLayoutDescriptor { stride, ..self }
    }

    /// Reading a property after setting it gives what was set, and setting one
    /// property leaves the other two as they were.
    pub proof fn lemma_round_trip(self, step_function: MTLStepFunction, step_rate: u64, stride: u64)
        ensures
            self.with_step_function(step_function).step_function == step_function,
            self.with_step_function(step_function).step_rate == self.step_rate,
            self.with_step_function(step_function).stride == self.stride,
            self.with_step_rate(step_rate).step_rate == step_rate,
            self.with_step_rate(step_rate).step_function == self.step_function,
            self.with_step_rate(step_rate).stride == self.stride,
            self.with_stride(stride).stride == stride,
            self.with_stride(stride).step_function == self.step_function,
            self.with_stride(stride).step_rate == self.step_rate,
    {
    }
}

impl BufferLayoutDescriptorRef {
    /// When the fetch moves on to the next element of the buffer.
    pub fn step_function(&self) -> (r: MTLStepFunction)
        ensures
            r == self.step_function,
    {
        self.step_function
    }

    /// Sets when the fetch moves on; step rate and stride stay.
    pub fn set_step_function(&mut self, step_function: MTLStepFunction)
        ensures
            *final(self) == old(self).with_step_function(step_function),
    {
        self.step_function = step_function;
    }

    /// After how many steps the fetch moves on to the next element.
    pub fn step_rate(&self) -> (r: u64)
        ensures
            r == self.step_rate,
    {
        self.step_rate
    }

    /// Sets after how many steps the fetch moves on; step function and stride stay.
    pub fn set_step_rate(&mut self, step_rate: u64)
        ensures
            *final(self) == old(self).with_step_rate(step_rate),
    {
        self.step_rate = step_rate;
    }

    /// The distance from one element of the buffer to the next, in bytes.
    pub fn stride(&self) -> (r: u64)
        ensures
            r == self.stride,
    {
        self.stride
    }

    /// Sets the distance between elements; step function and step rate stay.
    pub fn set_stride(&mut self, stride: u64)
        ensures
            *final(self) == old(self).with_stride(stride),
    {
        self.stride = stride;
    }
}

/// The buffer layouts of a stage input descriptor, a collection of fixed size.
///
/// It is viewed as the sequence of its slots' descriptions.
#[derive(Debug)]
pub struct BufferLayoutDescriptorArray {
    slots: Vec<BufferLayoutDescriptor>,
}

/// The buffer layouts as they are seen through a reference.
pub type BufferLayoutDescriptorArrayRef = BufferLayoutDescriptorArray;

impl View for BufferLayoutDescriptorArray {
    type V = Seq<BufferLayoutDescriptor>;

    closed spec fn view(&self) -> Seq<BufferLayoutDescriptor> {
        self.slots@
    }
}

impl BufferLayoutDescriptorArray {
    /// The slots of a collection of `limit` buffer layouts of which none was
    /// configured.
    pub open spec fn initial(limit: nat) -> Seq<BufferLayoutDescriptor> {
        Seq::new(limit, |i: int| BufferLayoutDescriptor::initial())
    }

    /// What storing `slot` at `index` makes of the slots `slots`: the stored
    /// description stands there, or the initial one where none is given, and
    /// every other slot is as it was.
    pub open spec fn stored(
        slots: Seq<BufferLayoutDescriptor>,
        index: int,
        slot: Option<BufferLayoutDescriptor>,
    ) -> Seq<BufferLayoutDescriptor> {
        slots.update(
            index,
            match slot {
                Some(d) => d,
                None => BufferLayoutDescriptor::initial(),
            },
        )
    }

    /// A collection of `limit` buffer layouts, none of them configured.
    pub fn with_slot_limit(limit: usize) -> (r: Self)
        ensures
            r@ == Self::initial(limit as nat),
    {
        let mut slots: Vec<BufferLayoutDescriptor> = Vec::new();
        let mut i: usize = 0;
        while i < limit
            invariant
                i <= limit,
                slots@ == Self::initial(i as nat),
            decreases limit - i,
        {
            slots.push(
                BufferLayoutDescriptor {
                    step_function: MTLStepFunction::PerVertex,
                    step_rate: 1,
                    stride: 0,
                },
            );
            i = i + 1;
        }
        BufferLayoutDescriptorArray { slots }
    }

    /// The number of slots: the indices below it are the ones in use.
    pub fn slot_limit(&self) -> (r: usize)
        ensures
            r == self@.len(),
    {
        self.slots.len()
    }

    /// Reading a slot after storing a description there gives that
    /// description, and the other slots read as before.
    pub proof fn lemma_store_round_trip(
        slots: Seq<BufferLayoutDescriptor>,
        index: int,
        slot: BufferLayoutDescriptor,
        other: int,
    )
        requires
            0 <= index < slots.len(),
            0 <= other < slots.len(),
        ensures
            Self::stored(slots, index, Some(slot)).len() == slots.len(),
            Self::stored(slots, index, Some(slot))[index] == slot,
            other != index ==> Self::stored(slots, index, Some(slot))[other] == slots[other],
    {
    }
}

impl Clone for BufferLayoutDescriptorArray {
    /// A collection with the same slots.
    fn clone(&self) -> (r: Self)
        ensures
            r@ == self@,
    {
        BufferLayoutDescriptorArray { slots: self.slots.clone() }
    }
}

impl BufferLayoutDescriptorArrayRef {
    /// The description of the buffer layout at `index`; none where `index` is
    /// not below the slot limit.
    pub fn object_at(&self, index: usize) -> (r: Option<&BufferLayoutDescriptorRef>)
        ensures
            r is Some <==> index < self@.len(),
            r matches Some(d) ==> *d == self@[index as int],
    {
        if index < self.slots.len() {
            Some(&self.slots[index])
        } else {
            None
        }
    }

    /// Stores a copy of `buffer_desc` in the slot at `index`, or the initial
    /// description where none is given.
    pub fn set_object_at(&mut self, index: usize, buffer_desc: Option<&BufferLayoutDescriptorRef>)
        requires
            index < old(self)@.len(),
        ensures
            final(self)@ == Self::stored(
                old(self)@,
                index as int,
                match buffer_desc {
                    Some(d) => Some(*d),
                    None => None,
                },
            ),
    {
        let slot = match buffer_desc {
            Some(d) => *d,
            None => BufferLayoutDescriptor {
                step_function: MTLStepFunction::PerVertex,
                step_rate: 1,
                stride: 0,
            },
        };
        self.slots.set(index, slot);
    }
}

} // verus!
