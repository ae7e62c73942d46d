//! The attributes that a compute kernel reads from its stage input: the
//! format of each, the buffer layout that it is read through, and where it
//! starts within an element of that buffer.

use vstd::prelude::*;
use crate::encoding::MTLAttributeFormat;

verus! {

/// The description of one attribute: its format, the buffer layout that it is
/// read through, and where it starts within an element of that buffer.
#[derive(Clone, Copy, PartialEq, Eq, Structural, Debug)]
pub struct AttributeDescriptor {
    pub buffer_index: u64,
    pub format: MTLAttributeFormat,
    pub offset: u64,
}

/// An attribute descriptor as it is seen through a reference.
pub type AttributeDescriptorRef = AttributeDescriptor;

impl AttributeDescriptor {
    /// The description of an attribute that was never configured: it has the
    /// invalid format and names buffer layout zero at offset zero.
    pub open spec fn initial() -> Self {
        AttributeDescriptor { buffer_index: 0, format: MTLAttributeFormat::Invalid, offset: 0 }
    }

    /// This description with another buffer index.
    pub open spec fn with_buffer_index(self, buffer_index: u64) -> Self {
        AttributeDescriptor { buffer_index, ..self }
    }

    /// This description with another format.
    pub open spec fn with_format(self, format: MTLAttributeFormat) -> Self {
        AttributeDescriptor { format, ..self }
    }

    /// This description with another offset.
    pub open spec fn with_offset(self, offset: u64) -> Self {
        AttributeDescriptor { offset, ..self }
    }

    /// Reading a property after setting it gives what was set, and setting one
    /// property leaves the other two as they were.
    pub proof fn lemma_round_trip(self, buffer_index: u64, format: MTLAttributeFormat, offset: u64)
        ensures
            self.with_buffer_index(buffer_index).buffer_index == buffer_index,
            self.with_buffer_index(buffer_index).format == self.format,
            self.with_buffer_index(buffer_index).offset == self.offset,
            self.with_format(format).format == format,
            self.with_format(format).buffer_index == self.buffer_index,
            self.with_format(format).offset == self.offset,
            self.with_offset(offset).offset == offset,
            self.with_offset(offset).buffer_index == self.buffer_index,
            self.with_offset(offset).format == self.format,
    {
    }
}

impl AttributeDescriptorRef {
    /// The buffer layout through which the attribute is read.
    pub fn buffer_index(&self) -> (r: u64)
        ensures
            r == self.buffer_index,
    {
        self.buffer_index
    }

    /// Names another buffer layout; format and offset stay.
    pub fn set_buffer_index(&mut self, buffer_index: u64)
        ensures
            *final(self) == old(self).with_buffer_index(buffer_index),
    {
        self.buffer_index = buffer_index;
    }

    /// The format of the attribute.
    pub fn format(&self) -> (r: MTLAttributeFormat)
        ensures
            r == self.format,
    {
        self.format
    }

    /// Gives the attribute another format; buffer index and offset stay.
    pub fn set_format(&mut self, format: MTLAttributeFormat)
        ensures
            *final(self) == old(self).with_format(format),
    {
        self.format = format;
    }

    /// Where the attribute starts within an element of its buffer, in bytes.
    pub fn offset(&self) -> (r: u64)
        ensures
            r == self.offset,
    {
        self.offset
    }

    /// Moves the attribute within its element; buffer index and format stay.
    pub fn set_offset(&mut self, offset: u64)
        ensures
            *final(self) == old(self).with_offset(offset),
    {
        self.offset = offset;
    }
}

/// The attributes of a stage input descriptor, a collection of fixed size.
///
/// It is viewed as the sequence of its slots' descriptions.
#[derive(Debug)]
pub struct AttributeDescriptorArray {
    slots: Vec<AttributeDescriptor>,
}

/// The attributes as they are seen through a reference.
pub type AttributeDescriptorArrayRef = AttributeDescriptorArray;

impl View for AttributeDescriptorArray {
    type V = Seq<AttributeDescriptor>;

    closed spec fn view(&self) -> Seq<AttributeDescriptor> {
        self.slots@
    }
}

impl AttributeDescriptorArray {
    /// The slots of a collection of `limit` attributes of which none was
    /// configured.
    pub open spec fn initial(limit: nat) -> Seq<AttributeDescriptor> {
        Seq::new(limit, |i: int| AttributeDescriptor::initial())
    }

    /// What storing `slot` at `index` makes of the slots `slots`: the stored
    /// description stands there, or the initial one where none is given, and
    /// every other slot is as it was.
    pub open spec fn stored(
        slots: Seq<AttributeDescriptor>,
        index: int,
        slot: Option<AttributeDescriptor>,
    ) -> Seq<AttributeDescriptor> {
        slots.update(
            index,
            match slot {
                Some(d) => d,
                None => AttributeDescriptor::initial(),
            },
        )
    }

    /// A collection of `limit` attributes, none of them configured.
    pub fn with_slot_limit(limit: usize) -> (r: Self)
        ensures
            r@ == Self::initial(limit as nat),
    {
        let mut slots: Vec<AttributeDescriptor> = Vec::new();
        let mut i: usize = 0;
        while i < limit
            invariant
                i <= limit,
                slots@ == Self::initial(i as nat),
            decreases limit - i,
        {
            slots.push(
                AttributeDescriptor { buffer_index: 0, format: MTLAttributeFormat::Invalid, offset: 0 },
            );
            i = i + 1;
        }
        AttributeDescriptorArray { slots }
    }

    /// The number of slots: the indices below it are the ones in use.
    pub fn slot_limit(&self) -> (r: usize)
        ensures
            r == self@.len(),
    {
        self.slots.len()
    }

    /// Reading a slot after storing a description there gives that
    /// description, and the other slots read as before.
    pub proof fn lemma_store_round_trip(
        slots: Seq<AttributeDescriptor>,
        index: int,
        slot: AttributeDescriptor,
        other: int,
    )
        requires
            0 <= index < slots.len(),
            0 <= other < slots.len(),
        ensures
            Self::stored(slots, index, Some(slot)).len() == slots.len(),
            Self::stored(slots, index, Some(slot))[index] == slot,
            other != index ==> Self::stored(slots, index, Some(slot))[other] == slots[other],
    {
    }
}

impl Clone for AttributeDescriptorArray {
    /// A collection with the same slots.
    fn clone(&self) -> (r: Self)
        ensures
            r@ == self@,
    {
        AttributeDescriptorArray { slots: self.slots.clone() }
    }
}

impl AttributeDescriptorArrayRef {
    /// The description of the attribute at `index`; none where `index` is not
    /// below the slot limit.
    pub fn object_at(&self, index: usize) -> (r: Option<&AttributeDescriptorRef>)
        ensures
            r is Some <==> index < self@.len(),
            r matches Some(d) ==> *d == self@[index as int],
    {
        if index < self.slots.len() {
            Some(&self.slots[index])
        } else {
            None
        }
    }

    /// Stores a copy of `buffer_desc` in the slot at `index`, or the initial
    /// description where none is given.
    pub fn set_object_at(&mut self, index: usize, buffer_desc: Option<&AttributeDescriptorRef>)
        requires
            index < old(self)@.len(),
        ensures
            final(self)@ == Self::stored(
                old(self)@,
                index as int,
                match buffer_desc {
                    Some(d) => Some(*d),
                    None => None,
                },
            ),
    {
        let slot = match buffer_desc {
            Some(d) => *d,
            None => AttributeDescriptor {
                buffer_index: 0,
                format: MTLAttributeFormat::Invalid,
                offset: 0,
            },
        };
        self.slots.set(index, slot);
    }
}

} // verus!
