//! The stage input of a compute kernel: the attributes that the kernel reads,
//! the layouts of the buffers that they are read from, and the index buffer
//! through which the elements are picked.

use vstd::prelude::*;
use crate::attributes::{AttributeDescriptor, AttributeDescriptorArray, AttributeDescriptorArrayRef};
use crate::encoding::MTLIndexType;
use crate::layouts::{
    BufferLayoutDescriptor,
    BufferLayoutDescriptorArray,
    BufferLayoutDescriptorArrayRef,
};
use crate::native::DEFAULT_SLOT_LIMIT;

verus! {

/// What a stage input descriptor holds.
pub struct StageInputOutputDescriptorView {
    pub index_buffer_index: u64,
    pub index_type: MTLIndexType,
    pub attributes: Seq<AttributeDescriptor>,
    pub layouts: Seq<BufferLayoutDescriptor>,
}

impl StageInputOutputDescriptorView {
    /// What a descriptor with so many attribute and buffer layout slots holds
    /// before anything is set.
    pub open spec fn initial(attribute_limit: nat, layout_limit: nat) -> Self {
        StageInputOutputDescriptorView {
            index_buffer_index: 0,
            index_type: MTLIndexType::UInt16,
            attributes: AttributeDescriptorArray::initial(attribute_limit),
            layouts: BufferLayoutDescriptorArray::initial(layout_limit),
        }
    }

    /// These contents with another index buffer index.
    pub open spec fn with_index_buffer_index(self, index_buffer_index: u64) -> Self {
        StageInputOutputDescriptorView { index_buffer_index, ..self }
    }

    /// These contents with another index type.
    pub open spec fn with_index_type(self, index_type: MTLIndexType) -> Self {
        StageInputOutputDescriptorView { index_type, ..self }
    }

    /// These contents with other attributes.
    pub open spec fn with_attributes(self, attributes: Seq<AttributeDescriptor>) -> Self {
        StageInputOutputDescriptorView { attributes, ..self }
    }

    /// These contents with other buffer layouts.
    pub open spec fn with_layouts(self, layouts: Seq<BufferLayoutDescriptor>) -> Self {
        StageInputOutputDescriptorView { layouts, ..self }
    }

    /// The bytes that those of `attributes` take together which are read
    /// through the buffer layout at `slot`.
    pub open spec fn attribute_bytes(attributes: Seq<AttributeDescriptor>, slot: int) -> nat
        decreases attributes.len(),
    {
        if attributes.len() == 0 {
            0
        } else {
            let rest = Self::attribute_bytes(attributes.drop_last(), slot);
            if attributes.last().buffer_index == slot {
                rest + attributes.last().format.size_in_bytes()
            } else {
                rest
            }
        }
    }

    /// Every attribute is read through a buffer layout that the descriptor
    /// has.
    pub open spec fn attributes_reference_layouts(self) -> bool {
        forall|i: int|
            0 <= i < self.attributes.len() ==> (#[trigger] self.attributes[i]).buffer_index
                < self.layouts.len()
    }

    /// The stride of every buffer layout is at least the bytes of the
    /// attributes that are read through it.
    pub open spec fn strides_cover_attributes(self) -> bool {
        forall|j: int|
            0 <= j < self.layouts.len() ==> (#[trigger] self.layouts[j]).stride
                >= Self::attribute_bytes(self.attributes, j)
    }

    /// The attributes and the buffer layouts fit each other.
    pub open spec fn consistent(self) -> bool {
        self.attributes_reference_layouts() && self.strides_cover_attributes()
    }

    /// A descriptor in which nothing was set has the 16-bit index type, whose
    /// native value is zero, and reads its indices from buffer zero.
    pub proof fn lemma_initial_index(attribute_limit: nat, layout_limit: nat)
        ensures
            Self::initial(attribute_limit, layout_limit).index_type == MTLIndexType::UInt16,
            Self::initial(attribute_limit, layout_limit).index_type.raw_value() == 0,
            Self::initial(attribute_limit, layout_limit).index_buffer_index == 0,
    {
    }

    /// Attributes of the invalid format take no bytes in any buffer layout.
    pub proof fn lemma_initial_attribute_bytes(limit: nat, slot: int)
        ensures
            Self::attribute_bytes(AttributeDescriptorArray::initial(limit), slot) == 0,
        decreases limit,
    {
        let attributes = AttributeDescriptorArray::initial(limit);
        if limit > 0 {
            assert(attributes.drop_last() =~= AttributeDescriptorArray::initial((limit - 1) as nat));
            Self::lemma_initial_attribute_bytes((limit - 1) as nat, slot);
        }
    }

    /// The bytes of the first attributes are no more than those of all.
    pub proof fn lemma_attribute_bytes_of_prefix(
        attributes: Seq<AttributeDescriptor>,
        slot: int,
        count: int,
    )
        requires
            0 <= count <= attributes.len(),
        ensures
            Self::attribute_bytes(attributes.take(count), slot) <= Self::attribute_bytes(
                attributes,
                slot,
            ),
        decreases attributes.len(),
    {
        if count == attributes.len() {
            assert(attributes.take(count) =~= attributes);
        } else {
            assert(attributes.drop_last().take(count) =~= attributes.take(count));
            Self::lemma_attribute_bytes_of_prefix(attributes.drop_last(), slot, count);
        }
    }

    /// What one more attribute adds to the bytes of the attributes before it.
    pub proof fn lemma_attribute_bytes_step(
        attributes: Seq<AttributeDescriptor>,
        slot: int,
        count: int,
    )
        requires
            0 <= count < attributes.len(),
        ensures
            Self::attribute_bytes(attributes.take(count + 1), slot) == Self::attribute_bytes(
                attributes.take(count),
                slot,
            ) + if attributes[count].buffer_index == slot {
                attributes[count].format.size_in_bytes()
            } else {
                0
            },
    {
        assert(attributes.take(count + 1).drop_last() =~= attributes.take(count));
    }

    /// A descriptor in which nothing was set is consistent, provided that it
    /// has a buffer layout for its attributes to name.
    pub proof fn lemma_initial_consistent(attribute_limit: nat, layout_limit: nat)
        requires
            attribute_limit > 0 ==> layout_limit > 0,
        ensures
            Self::initial(attribute_limit, layout_limit).consistent(),
    {
        let v = Self::initial(attribute_limit, layout_limit);
        assert forall|j: int| 0 <= j < v.layouts.len() implies (#[trigger] v.layouts[j]).stride
            >= Self::attribute_bytes(v.attributes, j) by {
            Self::lemma_initial_attribute_bytes(attribute_limit, j);
        }
    }

    /// Reading a property after setting it gives what was set, and setting one
    /// property leaves the others as they were.
    pub proof fn lemma_round_trip(self, index_buffer_index: u64, index_type: MTLIndexType)
        ensures
            self.with_index_buffer_index(index_buffer_index).index_buffer_index
                == index_buffer_index,
            self.with_index_buffer_index(index_buffer_index) == (StageInputOutputDescriptorView {
                index_buffer_index,
                ..self
            }),
            self.with_index_type(index_type).index_type == index_type,
            self.with_index_type(index_type) == (StageInputOutputDescriptorView {
                index_type,
                ..self
            }),
    {
    }
}

/// The description of the stage input of a compute kernel.
#[derive(Debug)]
pub struct StageInputOutputDescriptor {
    index_buffer_index: u64,
    index_type: MTLIndexType,
    attributes: AttributeDescriptorArray,
    layouts: BufferLayoutDescriptorArray,
}

/// A stage input descriptor as it is seen through a reference.
pub type StageInputOutputDescriptorRef = StageInputOutputDescriptor;

impl View for StageInputOutputDescriptor {
    type V = StageInputOutputDescriptorView;

    closed spec fn view(&self) -> StageInputOutputDescriptorView {
        StageInputOutputDescriptorView {
            index_buffer_index: self.index_buffer_index,
            index_type: self.index_type,
            attributes: self.attributes@,
            layouts: self.layouts@,
        }
    }
}

impl StageInputOutputDescriptor {
    /// A descriptor in which nothing is set, with the default number of
    /// attribute and buffer layout slots.
    pub fn new() -> (r: Self)
        ensures
            r@ == StageInputOutputDescriptorView::initial(
                DEFAULT_SLOT_LIMIT as nat,
                DEFAULT_SLOT_LIMIT as nat,
            ),
            r@.index_type == MTLIndexType::UInt16,
            r@.consistent(),
    {
        let r = Self::with_slot_limit(DEFAULT_SLOT_LIMIT);
        proof {
            StageInputOutputDescriptorView::lemma_initial_consistent(
                DEFAULT_SLOT_LIMIT as nat,
                DEFAULT_SLOT_LIMIT as nat,
            );
        }
        r
    }

    /// A descriptor in which nothing is set, with `limit` attribute slots and
    /// as many buffer layout slots.
    pub fn with_slot_limit(limit: usize) -> (r: Self)
        ensures
            r@ == StageInputOutputDescriptorView::initial(limit as nat, limit as nat),
    {
        StageInputOutputDescriptor {
            index_buffer_index: 0,
            index_type: MTLIndexType::UInt16,
            attributes: AttributeDescriptorArray::with_slot_limit(limit),
            layouts: BufferLayoutDescriptorArray::with_slot_limit(limit),
        }
    }

    /// The attributes, to change them in place.
    pub fn attributes_mut(&mut self) -> (r: &mut AttributeDescriptorArray)
        ensures
            r@ == old(self)@.attributes,
            final(self)@ == old(self)@.with_attributes(final(r)@),
    {
        &mut self.attributes
    }

    /// The buffer layouts, to change them in place.
    pub fn layouts_mut(&mut self) -> (r: &mut BufferLayoutDescriptorArray)
        ensures
            r@ == old(self)@.layouts,
            final(self)@ == old(self)@.with_layouts(final(r)@),
    {
        &mut self.layouts
    }

    /// Whether the attributes and the buffer layouts fit each other: every
    /// attribute names a buffer layout that the descriptor has, and the stride
    /// of every buffer layout is at least the bytes of the attributes that
    /// name it.
    pub fn is_consistent(&self) -> (r: bool)
        ensures
            r == self@.consistent(),
    {
        let attribute_limit = self.attributes.slot_limit();
        let layout_limit = self.layouts.slot_limit();
        let ghost attributes = self@.attributes;
        let ghost layouts = self@.layouts;
        let mut i: usize = 0;
        while i < attribute_limit
            invariant
                i <= attribute_limit,
                attribute_limit == attributes.len(),
                layout_limit == layouts.len(),
                attributes == self.attributes@,
                attributes == self@.attributes,
                layouts == self@.layouts,
                forall|k: int| 0 <= k < i ==> (#[trigger] attributes[k]).buffer_index < layout_limit,
            decreases attribute_limit - i,
        {
            if let Some(attribute) = self.attributes.object_at(i) {
                if attribute.buffer_index >= layout_limit as u64 {
                    assert(!(attributes[i as int].buffer_index < layouts.len()));
                    return false;
                }
            }
            i = i + 1;
        }
        assert(self@.attributes_reference_layouts());
        let mut j: usize = 0;
        while j < layout_limit
            invariant
                j <= layout_limit,
                attribute_limit == attributes.len(),
                layout_limit == layouts.len(),
                attributes == self.attributes@,
                layouts == self.layouts@,
                attributes == self@.attributes,
                layouts == self@.layouts,
                self@.attributes_reference_layouts(),
                forall|k: int|
                    0 <= k < j ==> (#[trigger] layouts[k]).stride
                        >= StageInputOutputDescriptorView::attribute_bytes(attributes, k),
            decreases layout_limit - j,
        {
            if let Some(layout) = self.layouts.object_at(j) {
                let stride = layout.stride;
                let mut bytes: u64 = 0;
                let mut i: usize = 0;
                while i < attribute_limit
                    invariant
                        i <= attribute_limit,
                        j < layout_limit,
                        attribute_limit == attributes.len(),
                        layout_limit == layouts.len(),
                        attributes == self.attributes@,
                        attributes == self@.attributes,
                        layouts == self@.layouts,
                        stride == layouts[j as int].stride,
                        bytes == StageInputOutputDescriptorView::attribute_bytes(
                            attributes.take(i as int),
                            j as int,
                        ),
                        bytes <= stride,
                    decreases attribute_limit - i,
                {
                    proof {
                        StageInputOutputDescriptorView::lemma_attribute_bytes_step(
                            attributes,
                            j as int,
                            i as int,
                        );
                    }
                    if let Some(attribute) = self.attributes.object_at(i) {
                        if attribute.buffer_index == j as u64 {
                            let size = attribute.format.byte_size();
                            if size > stride - bytes {
                                proof {
                                    StageInputOutputDescriptorView::lemma_attribute_bytes_of_prefix(
                                        attributes,
                                        j as int,
                                        i + 1,
                                    );
                                    assert(!(layouts[j as int].stride
                                        >= StageInputOutputDescriptorView::attribute_bytes(
                                        attributes,
                                        j as int,
                                    )));
                                }
                                return false;
                            }
                            bytes = bytes + size;
                        }
                    }
                    i = i + 1;
                }
                assert(attributes.take(attribute_limit as int) =~= attributes);
            }
            j = j + 1;
        }
        true
    }
}

impl Clone for StageInputOutputDescriptor {
    /// A descriptor that holds the same.
    fn clone(&self) -> (r: Self)
        ensures
            r@ == self@,
    {
        StageInputOutputDescriptor {
            index_buffer_index: self.index_buffer_index,
            index_type: self.index_type,
            attributes: self.attributes.clone(),
            layouts: self.layouts.clone(),
        }
    }
}

impl StageInputOutputDescriptorRef {
    /// The attributes.
    pub fn attributes(&self) -> (r: Option<&AttributeDescriptorArrayRef>)
        ensures
            r is Some,
            r matches Some(a) ==> a@ == self@.attributes,
    {
        Some(&self.attributes)
    }

    /// The buffer slot from which the indices are read.
    pub fn index_buffer_index(&self) -> (r: u64)
        ensures
            r == self@.index_buffer_index,
    {
        self.index_buffer_index
    }

    /// Names another buffer slot for the indices; everything else stays.
    pub fn set_index_buffer_index(&mut self, idx_buffer_idx: u64)
        ensures
            final(self)@ == old(self)@.with_index_buffer_index(idx_buffer_idx),
    {
        self.index_buffer_index = idx_buffer_idx;
    }

    /// The width of the indices.
    pub fn index_type(&self) -> (r: MTLIndexType)
        ensures
            r == self@.index_type,
    {
        self.index_type
    }

    /// Sets the width of the indices; everything else stays.
    pub fn set_index_type(&mut self, index_ty: MTLIndexType)
        ensures
            final(self)@ == old(self)@.with_index_type(index_ty),
    {
        self.index_type = index_ty;
    }

    /// The buffer layouts.
    pub fn layouts(&self) -> (r: Option<&BufferLayoutDescriptorArrayRef>)
        ensures
            r is Some,
            r matches Some(l) ==> l@ == self@.layouts,
    {
        Some(&self.layouts)
    }

    /// Puts every property and every slot back to what it was before anything
    /// was set. The numbers of slots stay.
    pub fn reset(&mut self)
        ensures
            final(self)@ == StageInputOutputDescriptorView::initial(
                old(self)@.attributes.len(),
                old(self)@.layouts.len(),
            ),
    {
        let attribute_limit = self.attributes.slot_limit();
        let layout_limit = self.layouts.slot_limit();
        self.index_buffer_index = 0;
        self.index_type = MTLIndexType::UInt16;
        self.attributes = AttributeDescriptorArray::with_slot_limit(attribute_limit);
        self.layouts = BufferLayoutDescriptorArray::with_slot_limit(layout_limit);
    }
}

} // verus!
