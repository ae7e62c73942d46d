//! The description from which a compute pipeline is compiled.

use vstd::prelude::*;
use crate::buffers::{
    PipelineBufferDescriptor,
    PipelineBufferDescriptorArray,
    PipelineBufferDescriptorArrayRef,
};
use crate::encoding::MTLMutability;
use crate::native::{Function, FunctionRef, DEFAULT_SLOT_LIMIT};
use crate::stage_input::{
    StageInputOutputDescriptor,
    StageInputOutputDescriptorRef,
    StageInputOutputDescriptorView,
};

verus! {

/// What a compute pipeline descriptor holds. The compute function stands in
/// it by its address.
pub struct ComputePipelineDescriptorView {
    pub label: Seq<char>,
    pub compute_function: Option<usize>,
    pub thread_group_size_is_multiple_of_thread_execution_width: bool,
    pub stage_input_descriptor: Option<StageInputOutputDescriptorView>,
    pub buffers: Seq<PipelineBufferDescriptor>,
}

impl ComputePipelineDescriptorView {
    /// What a descriptor with `buffer_limit` buffer slots holds before
    /// anything is set: an empty label, no compute function, a cleared flag,
    /// no stage input descriptor, and buffer slots of the default mutability.
    pub open spec fn initial(buffer_limit: nat) -> Self {
        ComputePipelineDescriptorView {
            label: Seq::empty(),
            compute_function: None,
            thread_group_size_is_multiple_of_thread_execution_width: false,
            stage_input_descriptor: None,
            buffers: PipelineBufferDescriptorArray::initial(buffer_limit),
        }
    }

    /// These contents with another label.
    pub open spec fn with_label(self, label: Seq<char>) -> Self {
        ComputePipelineDescriptorView { label, ..self }
    }

    /// These contents with another compute function, or with none.
    pub open spec fn with_compute_function(self, compute_function: Option<usize>) -> Self {
        ComputePipelineDescriptorView { compute_function, ..self }
    }

    /// These contents with the flag set or cleared.
    pub open spec fn with_thread_group_size_is_multiple_of_thread_execution_width(
        self,
        flag: bool,
    ) -> Self {
        ComputePipelineDescriptorView {
            thread_group_size_is_multiple_of_thread_execution_width: flag,
            ..self
        }
    }

    /// These contents with another stage input descriptor, or with none.
    pub open spec fn with_stage_input_descriptor(
        self,
        stage_input_descriptor: Option<StageInputOutputDescriptorView>,
    ) -> Self {
        ComputePipelineDescriptorView { stage_input_descriptor, ..self }
    }

    /// These contents with other buffer slots.
    pub open spec fn with_buffers(self, buffers: Seq<PipelineBufferDescriptor>) -> Self {
        ComputePipelineDescriptorView { buffers, ..self }
    }

    /// What a pipeline can be compiled from: the descriptor names a compute
    /// function, and its stage input descriptor, where it has one, is
    /// consistent.
    pub open spec fn ready_for_compilation(self) -> bool {
        &&& self.compute_function is Some
        &&& self.stage_input_descriptor matches Some(stage_input) ==> stage_input.consistent()
    }

    /// Reading a property after setting it gives what was set.
    pub proof fn lemma_round_trip(
        self,
        label: Seq<char>,
        compute_function: Option<usize>,
        flag: bool,
        stage_input_descriptor: Option<StageInputOutputDescriptorView>,
    )
        ensures
            self.with_label(label).label == label,
            self.with_compute_function(compute_function).compute_function == compute_function,
            self.with_thread_group_size_is_multiple_of_thread_execution_width(
                flag,
            ).thread_group_size_is_multiple_of_thread_execution_width == flag,
            self.with_stage_input_descriptor(stage_input_descriptor).stage_input_descriptor
                == stage_input_descriptor,
    {
    }

    /// Setting one property leaves the others as they were.
    pub proof fn lemma_set_keeps_the_rest(
        self,
        label: Seq<char>,
        compute_function: Option<usize>,
        flag: bool,
        stage_input_descriptor: Option<StageInputOutputDescriptorView>,
    )
        ensures
            self.with_label(label) == (ComputePipelineDescriptorView { label, ..self }),
            self.with_compute_function(compute_function) == (ComputePipelineDescriptorView {
                compute_function,
                ..self
            }),
            self.with_thread_group_size_is_multiple_of_thread_execution_width(flag) == (
            ComputePipelineDescriptorView {
                thread_group_size_is_multiple_of_thread_execution_width: flag,
                ..self
            }),
            self.with_stage_input_descriptor(stage_input_descriptor) == (
            ComputePipelineDescriptorView { stage_input_descriptor, ..self }),
    {
    }

    /// In a descriptor in which nothing was set every buffer slot has the
    /// default mutability, whose native value is zero.
    pub proof fn lemma_initial_mutability(buffer_limit: nat, index: int)
        requires
            0 <= index < buffer_limit,
        ensures
            Self::initial(buffer_limit).buffers.len() == buffer_limit,
            Self::initial(buffer_limit).buffers[index].mutability == MTLMutability::Default,
            Self::initial(buffer_limit).buffers[index].mutability.raw_value() == 0,
    {
    }

    /// A descriptor in which nothing was set names no compute function, so no
    /// pipeline can be compiled from it yet.
    pub proof fn lemma_initial_not_ready(buffer_limit: nat)
        ensures
            !Self::initial(buffer_limit).ready_for_compilation(),
    {
    }
}

/// The description from which a compute pipeline is compiled.
#[derive(Debug)]
pub struct ComputePipelineDescriptor {
    label: String,
    compute_function: Option<Function>,
    thread_group_size_is_multiple_of_thread_execution_width: bool,
    stage_input_descriptor: Option<StageInputOutputDescriptor>,
    buffers: PipelineBufferDescriptorArray,
}

/// A compute pipeline descriptor as it is seen through a reference.
pub type ComputePipelineDescriptorRef = ComputePipelineDescriptor;

impl View for ComputePipelineDescriptor {
    type V = ComputePipelineDescriptorView;

    closed spec fn view(&self) -> ComputePipelineDescriptorView {
        ComputePipelineDescriptorView {
            label: self.label@,
            compute_function: match self.compute_function {
                Some(function) => Some(function@),
                None => None,
            },
            thread_group_size_is_multiple_of_thread_execution_width:
                self.thread_group_size_is_multiple_of_thread_execution_width,
            stage_input_descriptor: match self.stage_input_descriptor {
                Some(stage_input) => Some(stage_input@),
                None => None,
            },
            buffers: self.buffers@,
        }
    }
}

impl ComputePipelineDescriptor {
    /// A descriptor in which nothing is set, with the default number of
    /// buffer slots.
    pub fn new() -> (r: Self)
        ensures
            r@ == ComputePipelineDescriptorView::initial(DEFAULT_SLOT_LIMIT as nat),
    {
        Self::with_slot_limit(DEFAULT_SLOT_LIMIT)
    }

    /// A descriptor in which nothing is set, with `limit` buffer slots.
    pub fn with_slot_limit(limit: usize) -> (r: Self)
        ensures
            r@ == ComputePipelineDescriptorView::initial(limit as nat),
    {
        ComputePipelineDescriptor {
            label: String::new(),
            compute_function: None,
            thread_group_size_is_multiple_of_thread_execution_width: false,
            stage_input_descriptor: None,
            buffers: PipelineBufferDescriptorArray::with_slot_limit(limit),
        }
    }

    /// The buffer slots, to change them in place.
    pub fn buffers_mut(&mut self) -> (r: &mut PipelineBufferDescriptorArray)
        ensures
            r@ == old(self)@.buffers,
            final(self)@ == old(self)@.with_buffers(final(r)@),
    {
        &mut self.buffers
    }

    /// Whether a pipeline can be compiled from this descriptor.
    pub fn is_ready_for_compilation(&self) -> (r: bool)
        ensures
            r == self@.ready_for_compilation(),
    {
        if self.compute_function.is_none() {
            return false;
        }
        match &self.stage_input_descriptor {
            Some(stage_input) => stage_input.is_consistent(),
            None => true,
        }
    }
}

impl Clone for ComputePipelineDescriptor {
    /// A descriptor that holds the same.
    fn clone(&self) -> (r: Self)
        ensures
            r@ == self@,
    {
        ComputePipelineDescriptor {
            label: self.label.clone(),
            compute_function: self.compute_function,
            thread_group_size_is_multiple_of_thread_execution_width:
                self.thread_group_size_is_multiple_of_thread_execution_width,
            stage_input_descriptor: match &self.stage_input_descriptor {
                Some(stage_input) => Some(stage_input.clone()),
                None => None,
            },
            buffers: self.buffers.clone(),
        }
    }
}

impl ComputePipelineDescriptorRef {
    /// The name under which the pipeline shows in debugging tools.
    pub fn label(&self) -> (r: &str)
        ensures
            r@ == self@.label,
    {
        self.label.as_str()
    }

    /// Names the pipeline; everything else stays.
    pub fn set_label(&mut self, label: &str)
        ensures
            final(self)@ == old(self)@.with_label(label@),
    {
        self.label = label.to_owned();
    }

    /// The compute function, by its handle.
    pub fn compute_function(&self) -> (r: Option<&FunctionRef>)
        ensures
            r is Some <==> self@.compute_function is Some,
            r matches Some(function) ==> self@.compute_function == Some(function@),
    {
        self.compute_function.as_ref()
    }

    /// Names the compute function, or none; everything else stays.
    pub fn set_compute_function(&mut self, function: Option<&FunctionRef>)
        ensures
            final(self)@ == old(self)@.with_compute_function(
                match function {
                    Some(f) => Some(f@),
                    None => None,
                },
            ),
    {
        self.compute_function = match function {
            Some(f) => Some(*f),
            None => None,
        };
    }

    /// Whether the caller promises to dispatch only thread groups whose size is a
    /// whole number of times the thread execution width.
    pub fn thread_group_size_is_multiple_of_thread_execution_width(&self) -> (r: bool)
        ensures
            r == self@.thread_group_size_is_multiple_of_thread_execution_width,
    {
        self.thread_group_size_is_multiple_of_thread_execution_width
    }

    /// Makes or withdraws that promise; everything else stays.
    pub fn set_thread_group_size_is_multiple_of_thread_execution_width(
        &mut self,
        size_is_multiple_of_width: bool,
    )
        ensures
            final(self)@ == old(
                self,
            )@.with_thread_group_size_is_multiple_of_thread_execution_width(
                size_is_multiple_of_width,
            ),
    {
        self.thread_group_size_is_multiple_of_thread_execution_width = size_is_multiple_of_width;
    }

    /// The stage input descriptor, where one is set.
    pub fn stage_input_descriptor(&self) -> (r: Option<&StageInputOutputDescriptorRef>)
        ensures
            r is Some <==> self@.stage_input_descriptor is Some,
            r matches Some(stage_input) ==> self@.stage_input_descriptor == Some(stage_input@),
    {
        self.stage_input_descriptor.as_ref()
    }

    /// Sets a copy of `descriptor` as the stage input descriptor, or none.
    pub fn set_stage_input_descriptor(&mut self, descriptor: Option<&StageInputOutputDescriptorRef>)
        ensures
            final(self)@ == old(self)@.with_stage_input_descriptor(
                match descriptor {
                    Some(d) => Some(d@),
                    None => None,
                },
            ),
    {
        self.stage_input_descriptor = match descriptor {
            Some(d) => Some(d.clone()),
            None => None,
        };
    }

    /// The buffer slots.
    pub fn buffers(&self) -> (r: Option<&PipelineBufferDescriptorArrayRef>)
        ensures
            r is Some,
            r matches Some(b) ==> b@ == self@.buffers,
    {
        Some(&self.buffers)
    }

    /// Puts every property and every buffer slot back to what it was before
    /// anything was set. The number of buffer slots stays.
    pub fn reset(&mut self)
        ensures
            final(self)@ == ComputePipelineDescriptorView::initial(old(self)@.buffers.len()),
    {
        let limit = self.buffers.slot_limit();
        self.label = String::new();
        self.compute_function = None;
        self.thread_group_size_is_multiple_of_thread_execution_width = false;
        self.stage_input_descriptor = None;
        self.buffers = PipelineBufferDescriptorArray::with_slot_limit(limit);
    }
}

} // verus!
