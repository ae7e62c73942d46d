use metal_compute::attributes::{AttributeDescriptor, AttributeDescriptorArray};
use metal_compute::buffers::{PipelineBufferDescriptor, PipelineBufferDescriptorArray};
use metal_compute::descriptor::ComputePipelineDescriptor;
use metal_compute::encoding::{MTLAttributeFormat, MTLIndexType, MTLMutability, MTLStepFunction};
use metal_compute::layouts::{BufferLayoutDescriptor, BufferLayoutDescriptorArray};
use metal_compute::native::{Function, DEFAULT_SLOT_LIMIT};
use metal_compute::stage_input::StageInputOutputDescriptor;
use metal_compute::state::ComputePipelineState;

#[test]
fn new_descriptor_holds_the_defaults() {
    let descriptor = ComputePipelineDescriptor::new();
    assert_eq!(descriptor.label(), "");
    assert!(descriptor.compute_function().is_none());
    assert!(!descriptor.thread_group_size_is_multiple_of_thread_execution_width());
    assert!(descriptor.stage_input_descriptor().is_none());
    let buffers = descriptor.buffers().unwrap();
    assert_eq!(buffers.slot_limit(), DEFAULT_SLOT_LIMIT);
    assert_eq!(DEFAULT_SLOT_LIMIT, 31);
    let mut index = 0;
    while index < buffers.slot_limit() {
        let slot = buffers.object_at(index).unwrap();
        assert_eq!(slot.mutability(), MTLMutability::Default);
        assert_eq!(slot.mutability().raw(), 0);
        index += 1;
    }
}

#[test]
fn new_stage_input_holds_the_defaults() {
    let stage_input = StageInputOutputDescriptor::new();
    assert_eq!(stage_input.index_buffer_index(), 0);
    assert_eq!(stage_input.index_type(), MTLIndexType::UInt16);
    assert_eq!(stage_input.index_type().raw(), 0);
    let attributes = stage_input.attributes().unwrap();
    let layouts = stage_input.layouts().unwrap();
    assert_eq!(attributes.slot_limit(), 31);
    assert_eq!(layouts.slot_limit(), 31);
    let attribute = attributes.object_at(30).unwrap();
    assert_eq!(attribute.buffer_index(), 0);
    assert_eq!(attribute.format(), MTLAttributeFormat::Invalid);
    assert_eq!(attribute.offset(), 0);
    let layout = layouts.object_at(0).unwrap();
    assert_eq!(layout.step_function(), MTLStepFunction::PerVertex);
    assert_eq!(layout.step_function().raw(), 1);
    assert_eq!(layout.step_rate(), 1);
    assert_eq!(layout.stride(), 0);
    assert!(stage_input.is_consistent());
}

#[test]
fn label_round_trip() {
    let mut descriptor = ComputePipelineDescriptor::new();
    descriptor.set_label("blur kernel");
    assert_eq!(descriptor.label(), "blur kernel");
    descriptor.set_label("");
    assert_eq!(descriptor.label(), "");
    descriptor.set_label("ประเทศไทย中华");
    assert_eq!(descriptor.label(), "ประเทศไทย中华");
    assert!(descriptor.compute_function().is_none());
    assert!(!descriptor.thread_group_size_is_multiple_of_thread_execution_width());
}

#[test]
fn flag_round_trip() {
    let mut descriptor = ComputePipelineDescriptor::new();
    descriptor.set_thread_group_size_is_multiple_of_thread_execution_width(true);
    assert!(descriptor.thread_group_size_is_multiple_of_thread_execution_width());
    descriptor.set_thread_group_size_is_multiple_of_thread_execution_width(false);
    assert!(!descriptor.thread_group_size_is_multiple_of_thread_execution_width());
}

#[test]
fn function_handles() {
    assert!(Function::from_address(0).is_none());
    let function = Function::from_address(0x1000).unwrap();
    assert_eq!(function.address(), 0x1000);
    let other = Function::from_address(usize::MAX).unwrap();
    assert_eq!(other.address(), usize::MAX);
}

#[test]
fn compute_function_round_trip() {
    let mut descriptor = ComputePipelineDescriptor::new();
    let function = Function::from_address(0x7f00_1234).unwrap();
    descriptor.set_compute_function(Some(&function));
    assert_eq!(descriptor.compute_function().unwrap().address(), 0x7f00_1234);
    assert_eq!(descriptor.label(), "");
    descriptor.set_compute_function(None);
    assert!(descriptor.compute_function().is_none());
}

#[test]
fn stage_input_descriptor_round_trip() {
    let mut stage_input = StageInputOutputDescriptor::with_slot_limit(4);
    stage_input.set_index_type(MTLIndexType::UInt32);
    stage_input.set_index_buffer_index(3);
    let mut descriptor = ComputePipelineDescriptor::new();
    descriptor.set_stage_input_descriptor(Some(&stage_input));
    // The descriptor holds a copy: a later change of the original does not reach it.
    stage_input.set_index_buffer_index(9);
    let held = descriptor.stage_input_descriptor().unwrap();
    assert_eq!(held.index_type(), MTLIndexType::UInt32);
    assert_eq!(held.index_buffer_index(), 3);
    assert_eq!(held.attributes().unwrap().slot_limit(), 4);
    assert_eq!(held.layouts().unwrap().slot_limit(), 4);
    descriptor.set_stage_input_descriptor(None);
    assert!(descriptor.stage_input_descriptor().is_none());
}

#[test]
fn mutability_round_trip() {
    let mut slot = PipelineBufferDescriptor { mutability: MTLMutability::Default };
    slot.set_mutability(MTLMutability::Immutable);
    assert_eq!(slot.mutability(), MTLMutability::Immutable);
    slot.set_mutability(MTLMutability::Mutable);
    assert_eq!(slot.mutability(), MTLMutability::Mutable);
}

#[test]
fn buffer_slots_round_trip() {
    let mut descriptor = ComputePipelineDescriptor::new();
    let slot = PipelineBufferDescriptor { mutability: MTLMutability::Immutable };
    descriptor.buffers_mut().set_object_at(3, Some(&slot));
    let buffers = descriptor.buffers().unwrap();
    assert_eq!(buffers.object_at(3).unwrap().mutability(), MTLMutability::Immutable);
    assert_eq!(buffers.object_at(2).unwrap().mutability(), MTLMutability::Default);
    assert_eq!(buffers.object_at(4).unwrap().mutability(), MTLMutability::Default);
    descriptor.buffers_mut().set_object_at(3, None);
    let buffers = descriptor.buffers().unwrap();
    assert_eq!(buffers.object_at(3).unwrap().mutability(), MTLMutability::Default);
}

#[test]
fn buffer_slots_end_at_the_limit() {
    let mut buffers = PipelineBufferDescriptorArray::with_slot_limit(2);
    assert_eq!(buffers.slot_limit(), 2);
    assert!(buffers.object_at(0).is_some());
    assert!(buffers.object_at(1).is_some());
    assert!(buffers.object_at(2).is_none());
    assert!(buffers.object_at(usize::MAX).is_none());
    let slot = PipelineBufferDescriptor { mutability: MTLMutability::Mutable };
    buffers.set_object_at(1, Some(&slot));
    assert_eq!(*buffers.object_at(1).unwrap(), slot);
    assert_eq!(buffers.object_at(0).unwrap().mutability(), MTLMutability::Default);
    let empty = PipelineBufferDescriptorArray::with_slot_limit(0);
    assert_eq!(empty.slot_limit(), 0);
    assert!(empty.object_at(0).is_none());
}

#[test]
fn attribute_round_trip() {
    let mut attribute = AttributeDescriptor {
        buffer_index: 0,
        format: MTLAttributeFormat::Invalid,
        offset: 0,
    };
    attribute.set_format(MTLAttributeFormat::Float4);
    assert_eq!(attribute.format(), MTLAttributeFormat::Float4);
    assert_eq!(attribute.format().raw(), 31);
    attribute.set_buffer_index(5);
    assert_eq!(attribute.buffer_index(), 5);
    attribute.set_offset(u64::MAX);
    assert_eq!(attribute.offset(), u64::MAX);
    assert_eq!(attribute.format(), MTLAttributeFormat::Float4);
    assert_eq!(attribute.buffer_index(), 5);
}

#[test]
fn layout_round_trip() {
    let mut layout = BufferLayoutDescriptor {
        step_function: MTLStepFunction::Constant,
        step_rate: 0,
        stride: 0,
    };
    layout.set_stride(48);
    assert_eq!(layout.stride(), 48);
    layout.set_step_function(MTLStepFunction::ThreadPositionInGridX);
    assert_eq!(layout.step_function(), MTLStepFunction::ThreadPositionInGridX);
    assert_eq!(layout.step_function().raw(), 5);
    layout.set_step_rate(1);
    assert_eq!(layout.step_rate(), 1);
    assert_eq!(layout.stride(), 48);
    assert_eq!(layout.step_function(), MTLStepFunction::ThreadPositionInGridX);
}

#[test]
fn attribute_slots_round_trip() {
    let mut attributes = AttributeDescriptorArray::with_slot_limit(3);
    let attribute = AttributeDescriptor {
        buffer_index: 1,
        format: MTLAttributeFormat::Half2,
        offset: 8,
    };
    attributes.set_object_at(2, Some(&attribute));
    assert_eq!(*attributes.object_at(2).unwrap(), attribute);
    assert_eq!(attributes.object_at(1).unwrap().format(), MTLAttributeFormat::Invalid);
    assert!(attributes.object_at(3).is_none());
    attributes.set_object_at(2, None);
    assert_eq!(attributes.object_at(2).unwrap().format(), MTLAttributeFormat::Invalid);
    assert_eq!(attributes.object_at(2).unwrap().buffer_index(), 0);
    assert_eq!(attributes.object_at(2).unwrap().offset(), 0);
}

#[test]
fn layout_slots_round_trip() {
    let mut layouts = BufferLayoutDescriptorArray::with_slot_limit(3);
    let layout = BufferLayoutDescriptor {
        step_function: MTLStepFunction::PerInstance,
        step_rate: 2,
        stride: 64,
    };
    layouts.set_object_at(0, Some(&layout));
    assert_eq!(*layouts.object_at(0).unwrap(), layout);
    assert_eq!(layouts.object_at(1).unwrap().stride(), 0);
    assert!(layouts.object_at(3).is_none());
    layouts.set_object_at(0, None);
    assert_eq!(layouts.object_at(0).unwrap().step_function(), MTLStepFunction::PerVertex);
    assert_eq!(layouts.object_at(0).unwrap().step_rate(), 1);
    assert_eq!(layouts.object_at(0).unwrap().stride(), 0);
}

#[test]
fn index_properties_round_trip() {
    let mut stage_input = StageInputOutputDescriptor::new();
    stage_input.set_index_type(MTLIndexType::UInt32);
    assert_eq!(stage_input.index_type(), MTLIndexType::UInt32);
    assert_eq!(stage_input.index_buffer_index(), 0);
    stage_input.set_index_buffer_index(7);
    assert_eq!(stage_input.index_buffer_index(), 7);
    assert_eq!(stage_input.index_type(), MTLIndexType::UInt32);
    stage_input.set_index_type(MTLIndexType::UInt16);
    assert_eq!(stage_input.index_type(), MTLIndexType::UInt16);
}

#[test]
fn descriptor_reset_restores_the_defaults() {
    let mut descriptor = ComputePipelineDescriptor::with_slot_limit(8);
    descriptor.set_label("named");
    descriptor.set_compute_function(Some(&Function::from_address(64).unwrap()));
    descriptor.set_thread_group_size_is_multiple_of_thread_execution_width(true);
    descriptor.set_stage_input_descriptor(Some(&StageInputOutputDescriptor::new()));
    let slot = PipelineBufferDescriptor { mutability: MTLMutability::Mutable };
    descriptor.buffers_mut().set_object_at(7, Some(&slot));
    descriptor.reset();
    assert_eq!(descriptor.label(), "");
    assert!(descriptor.compute_function().is_none());
    assert!(!descriptor.thread_group_size_is_multiple_of_thread_execution_width());
    assert!(descriptor.stage_input_descriptor().is_none());
    let buffers = descriptor.buffers().unwrap();
    assert_eq!(buffers.slot_limit(), 8);
    let mut index = 0;
    while index < 8 {
        assert_eq!(buffers.object_at(index).unwrap().mutability(), MTLMutability::Default);
        index += 1;
    }
}

#[test]
fn stage_input_reset_restores_the_defaults() {
    let mut stage_input = StageInputOutputDescriptor::with_slot_limit(4);
    stage_input.set_index_type(MTLIndexType::UInt32);
    stage_input.set_index_buffer_index(2);
    let attribute = AttributeDescriptor {
        buffer_index: 3,
        format: MTLAttributeFormat::UInt4,
        offset: 16,
    };
    stage_input.attributes_mut().set_object_at(1, Some(&attribute));
    let layout = BufferLayoutDescriptor {
        step_function: MTLStepFunction::ThreadPositionInGridY,
        step_rate: 4,
        stride: 32,
    };
    stage_input.layouts_mut().set_object_at(3, Some(&layout));
    stage_input.reset();
    assert_eq!(stage_input.index_type(), MTLIndexType::UInt16);
    assert_eq!(stage_input.index_buffer_index(), 0);
    let attributes = stage_input.attributes().unwrap();
    let layouts = stage_input.layouts().unwrap();
    assert_eq!(attributes.slot_limit(), 4);
    assert_eq!(layouts.slot_limit(), 4);
    let mut index = 0;
    while index < 4 {
        let a = attributes.object_at(index).unwrap();
        assert_eq!(a.format(), MTLAttributeFormat::Invalid);
        assert_eq!(a.buffer_index(), 0);
        assert_eq!(a.offset(), 0);
        let l = layouts.object_at(index).unwrap();
        assert_eq!(l.step_function(), MTLStepFunction::PerVertex);
        assert_eq!(l.step_rate(), 1);
        assert_eq!(l.stride(), 0);
        index += 1;
    }
}

fn stage_input_with(
    attributes: &[(usize, u64, MTLAttributeFormat)],
    strides: &[(usize, u64)],
) -> StageInputOutputDescriptor {
    let mut stage_input = StageInputOutputDescriptor::with_slot_limit(4);
    for (slot, buffer_index, format) in attributes {
        let attribute =
            AttributeDescriptor { buffer_index: *buffer_index, format: *format, offset: 0 };
        stage_input.attributes_mut().set_object_at(*slot, Some(&attribute));
    }
    for (slot, stride) in strides {
        let layout = BufferLayoutDescriptor {
            step_function: MTLStepFunction::ThreadPositionInGridX,
            step_rate: 1,
            stride: *stride,
        };
        stage_input.layouts_mut().set_object_at(*slot, Some(&layout));
    }
    stage_input
}

#[test]
fn stride_that_covers_its_attributes_is_consistent() {
    // Float4 and Half2 through layout 1: 16 + 4 bytes.
    let stage_input = stage_input_with(
        &[(0, 1, MTLAttributeFormat::Float4), (1, 1, MTLAttributeFormat::Half2)],
        &[(1, 20)],
    );
    assert!(stage_input.is_consistent());
    let larger = stage_input_with(
        &[(0, 1, MTLAttributeFormat::Float4), (1, 1, MTLAttributeFormat::Half2)],
        &[(1, u64::MAX)],
    );
    assert!(larger.is_consistent());
}

#[test]
fn stride_below_its_attributes_is_not_consistent() {
    let stage_input = stage_input_with(
        &[(0, 1, MTLAttributeFormat::Float4), (1, 1, MTLAttributeFormat::Half2)],
        &[(1, 19)],
    );
    assert!(!stage_input.is_consistent());
    // The stride of another layout does not help.
    let elsewhere = stage_input_with(
        &[(0, 1, MTLAttributeFormat::Float4), (1, 1, MTLAttributeFormat::Half2)],
        &[(0, 64), (1, 19), (2, 64)],
    );
    assert!(!elsewhere.is_consistent());
}

#[test]
fn attributes_count_for_their_own_layout_only() {
    let stage_input = stage_input_with(
        &[
            (0, 0, MTLAttributeFormat::Float4),
            (1, 2, MTLAttributeFormat::UChar3),
            (2, 0, MTLAttributeFormat::Int1010102Normalized),
            (3, 2, MTLAttributeFormat::Short3),
        ],
        &[(0, 20), (2, 9)],
    );
    assert!(stage_input.is_consistent());
    let short = stage_input_with(
        &[
            (0, 0, MTLAttributeFormat::Float4),
            (1, 2, MTLAttributeFormat::UChar3),
            (2, 0, MTLAttributeFormat::Int1010102Normalized),
            (3, 2, MTLAttributeFormat::Short3),
        ],
        &[(0, 20), (2, 8)],
    );
    assert!(!short.is_consistent());
}

#[test]
fn attribute_beyond_the_layouts_is_not_consistent() {
    let stage_input = stage_input_with(&[(0, 4, MTLAttributeFormat::Invalid)], &[]);
    assert!(!stage_input.is_consistent());
    let last = stage_input_with(&[(0, 3, MTLAttributeFormat::Invalid)], &[]);
    assert!(last.is_consistent());
    let far = stage_input_with(&[(3, u64::MAX, MTLAttributeFormat::Float)], &[(3, 64)]);
    assert!(!far.is_consistent());
}

#[test]
fn stage_input_without_slots_is_consistent() {
    let stage_input = StageInputOutputDescriptor::with_slot_limit(0);
    assert!(stage_input.is_consistent());
    assert!(stage_input.attributes().unwrap().object_at(0).is_none());
    assert!(stage_input.layouts().unwrap().object_at(0).is_none());
}

#[test]
fn descriptor_is_ready_once_it_names_a_function() {
    let mut descriptor = ComputePipelineDescriptor::new();
    assert!(!descriptor.is_ready_for_compilation());
    descriptor.set_compute_function(Some(&Function::from_address(8).unwrap()));
    assert!(descriptor.is_ready_for_compilation());
    let consistent = stage_input_with(&[(0, 1, MTLAttributeFormat::Float2)], &[(1, 8)]);
    descriptor.set_stage_input_descriptor(Some(&consistent));
    assert!(descriptor.is_ready_for_compilation());
    let inconsistent = stage_input_with(&[(0, 1, MTLAttributeFormat::Float2)], &[(1, 7)]);
    descriptor.set_stage_input_descriptor(Some(&inconsistent));
    assert!(!descriptor.is_ready_for_compilation());
    descriptor.set_stage_input_descriptor(None);
    assert!(descriptor.is_ready_for_compilation());
    descriptor.set_compute_function(None);
    assert!(!descriptor.is_ready_for_compilation());
}

#[test]
fn pipeline_state_reports_its_figures() {
    let state = ComputePipelineState::new("blur", 1024, 32, 4096).unwrap();
    assert_eq!(state.label(), "blur");
    assert_eq!(state.max_total_threads_per_group(), 1024);
    assert_eq!(state.thread_execution_width(), 32);
    assert_eq!(state.static_threadgroup_memory_length(), 4096);
    assert!(state.thread_execution_width() > 0);
    assert_eq!(state.max_total_threads_per_group() % state.thread_execution_width(), 0);
    // Reading changes nothing: a second read gives the same figures.
    assert_eq!(state.thread_execution_width(), 32);
    assert_eq!(state.max_total_threads_per_group(), 1024);
}

#[test]
fn pipeline_state_needs_a_positive_width_that_divides_the_group() {
    assert!(ComputePipelineState::new("", 1000, 32, 0).is_none());
    assert!(ComputePipelineState::new("", 1024, 0, 0).is_none());
    assert!(ComputePipelineState::new("", 0, 0, 0).is_none());
    assert!(ComputePipelineState::new("", 0, 0, 64).is_none());
    assert!(ComputePipelineState::new("", 0, 1, 0).is_some());
    assert!(ComputePipelineState::new("", 0, 32, 0).is_some());
    assert!(ComputePipelineState::new("", 32, 32, 0).is_some());
    assert!(ComputePipelineState::new("", 31, 32, 0).is_none());
    assert!(ComputePipelineState::new("", u64::MAX, 1, u64::MAX).is_some());
    assert!(ComputePipelineState::new("", u64::MAX, u64::MAX, 0).is_some());
    assert!(ComputePipelineState::new("", u64::MAX, 2, 0).is_none());
}
