//! The buffer slots of a compute pipeline descriptor: for each slot, how the
//! kernel may use the buffer that is bound to it.

use vstd::prelude::*;
use crate::encoding::MTLMutability;

verus! {

/// The description of one buffer slot.
#[derive(Clone, Copy, PartialEq, Eq, Structural, Debug)]
pub struct PipelineBufferDescriptor {
    pub mutability: MTLMutability,
}

/// A buffer descriptor as it is seen through a reference.
pub type PipelineBufferDescriptorRef = PipelineBufferDescriptor;

impl PipelineBufferDescriptor {
    /// The description of a slot that was never configured.
    pub open spec fn initial() -> Self {
        PipelineBufferDescriptor { mutability: MTLMutability::Default }
    }

    /// This description with another mutability.
    pub open spec fn with_mutability(self, mutability: MTLMutability) -> Self {
        PipelineBufferDescriptor { mutability }
    }

    /// Reading the mutability after setting it gives what was set.
    pub proof fn lemma_mutability_round_trip(self, mutability: MTLMutability)
        ensures
            self.with_mutability(mutability).mutability == mutability,
    {
    }
}

impl PipelineBufferDescriptorRef {
    /// How the kernel may use the buffer of this slot.
    pub fn mutability(&self) -> (r: MTLMutability)
        ensures
            r == self.mutability,
    {
        self.mutability
    }

    /// Says how the kernel may use the buffer of this slot.
    pub fn set_mutability(&mut self, new_mutability: MTLMutability)
        ensures
            *final(self) == old(self).with_mutability(new_mutability),
    {
        self.mutability = new_mutability;
    }
}

/// The buffer slots of a pipeline descriptor, a collection of fixed size.
///
/// It is viewed as the sequence of its slots' descriptions.
#[derive(Debug)]
pub struct PipelineBufferDescriptorArray {
    slots: Vec<PipelineBufferDescriptor>,
}

/// The buffer slots as they are seen through a reference.
pub type PipelineBufferDescriptorArrayRef = PipelineBufferDescriptorArray;

impl View for PipelineBufferDescriptorArray {
    type V = Seq<PipelineBufferDescriptor>;

    closed spec fn view(&self) -> Seq<PipelineBufferDescriptor> {
        self.slots@
    }
}

impl PipelineBufferDescriptorArray {
    /// The slots of a collection of `limit` slots of which none was configured.
    pub open spec fn initial(limit: nat) -> Seq<PipelineBufferDescriptor> {
        Seq::new(limit, |i: int| PipelineBufferDescriptor::initial())
    }

    /// What storing `slot` at `index` makes of the slots `slots`: the stored
    /// description stands there, or the initial one where none is given, and
    /// every other slot is as it was.
    pub open spec fn stored(
        slots: Seq<PipelineBufferDescriptor>,
        index: int,
        slot: Option<PipelineBufferDescriptor>,
    ) -> Seq<PipelineBufferDescriptor> {
        slots.update(
            index,
            match slot {
                Some(d) => d,
                None => PipelineBufferDescriptor::initial(),
            },
        )
    }

    /// A collection of `limit` slots, none of them configured.
    pub fn with_slot_limit(limit: usize) -> (r: Self)
        ensures
            r@ == Self::initial(limit as nat),
    {
        let mut slots: Vec<PipelineBufferDescriptor> = Vec::new();
        let mut i: usize = 0;
        while i < limit
            invariant
                i <= limit,
                slots@ == Self::initial(i as nat),
            decreases limit - i,
        {
            slots.push(PipelineBufferDescriptor { mutability: MTLMutability::Default });
            i = i + 1;
        }
        PipelineBufferDescriptorArray { slots }
    }

    /// The number of slots: the indices below it are the ones in use.
    pub fn slot_limit(&self) -> (r: usize)
        ensures
            r == self@.len(),
    {
        self.slots.len()
    }

    /// Reading a slot after storing a description there gives that
    /// description, and the other slots read as before.
    pub proof fn lemma_store_round_trip(
        slots: Seq<PipelineBufferDescriptor>,
        index: int,
        slot: PipelineBufferDescriptor,
        other: int,
    )
        requires
            0 <= index < slots.len(),
            0 <= other < slots.len(),
        ensures
            Self::stored(slots, index, Some(slot)).len() == slots.len(),
            Self::stored(slots, index, Some(slot))[index] == slot,
            other != index ==> Self::stored(slots, index, Some(slot))[other] == slots[other],
    {
    }
}

impl Clone for PipelineBufferDescriptorArray {
    /// A collection with the same slots.
    fn clone(&self) -> (r: Self)
        ensures
            r@ == self@,
    {
        PipelineBufferDescriptorArray { slots: self.slots.clone() }
    }
}

impl PipelineBufferDescriptorArrayRef {
    /// The description of the slot at `index`; none where `index` is not below
    /// the slot limit.
    pub fn object_at(&self, index: usize) -> (r: Option<&PipelineBufferDescriptorRef>)
        ensures
            r is Some <==> index < self@.len(),
            r matches Some(d) ==> *d == self@[index as int],
    {
        if index < self.slots.len() {
            Some(&self.slots[index])
        } else {
            None
        }
    }

    /// Stores a copy of `buffer_desc` in the slot at `index`, or the initial
    /// description where none is given.
    pub fn set_object_at(&mut self, index: usize, buffer_desc: Option<&PipelineBufferDescriptorRef>)
        requires
            index < old(self)@.len(),
        ensures
            final(self)@ == Self::stored(
                old(self)@,
                index as int,
                match buffer_desc {
                    Some(d) => Some(*d),
                    None => None,
                },
            ),
    {
        let slot = match buffer_desc {
            Some(d) => *d,
            None => PipelineBufferDescriptor { mutability: MTLMutability::Default },
        };
        self.slots.set(index, slot);
    }
}

} // verus!
