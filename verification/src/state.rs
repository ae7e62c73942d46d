//! A compiled compute pipeline, as far as a caller can ask it: its label and
//! the figures by which dispatches are sized.

use vstd::prelude::*;
use vstd::arithmetic::div_mod::{lemma_fundamental_div_mod, lemma_mod_multiples_basic};

verus! {

/// The product of two natural numbers.
pub open spec fn product(factor: nat, width: nat) -> nat {
    factor * width
}

/// Whether `total` is a whole number of times `width`.
pub open spec fn divides(width: nat, total: nat) -> bool {
    exists|factor: nat| #[trigger] product(factor, width) == total
}

/// Zero divides only zero, and any other width divides exactly the totals
/// that leave no remainder.
pub proof fn lemma_divides_by_remainder(width: nat, total: nat)
    ensures
        width == 0 ==> (divides(width, total) <==> total == 0),
        width != 0 ==> (divides(width, total) <==> total % width == 0),
{
    if width == 0 {
        if total == 0 {
            assert(product(0, width) == total);
        }
    } else {
        if total % width == 0 {
            lemma_fundamental_div_mod(total as int, width as int);
            assert(total == (total / width) * width) by (nonlinear_arith)
                requires
                    total == width * (total / width) + (total % width),
                    total % width == 0,
            ;
            assert(product(total / width, width) == total);
        }
        if divides(width, total) {
            let factor = choose|factor: nat| #[trigger] product(factor, width) == total;
            lemma_mod_multiples_basic(factor as int, width as int);
        }
    }
}

/// What a compiled compute pipeline tells of itself.
pub struct ComputePipelineStateView {
    pub label: Seq<char>,
    pub max_total_threads_per_group: u64,
    pub thread_execution_width: u64,
    pub static_threadgroup_memory_length: u64,
}

impl ComputePipelineStateView {
    /// The thread execution width is positive and divides the most threads
    /// that a group may have.
    pub open spec fn well_formed(self) -> bool {
        &&& self.thread_execution_width > 0
        &&& self.max_total_threads_per_group % self.thread_execution_width == 0
    }

    /// The most threads that a group may have are a whole number of times the
    /// thread execution width.
    pub proof fn lemma_whole_widths(self)
        requires
            self.well_formed(),
        ensures
            divides(self.thread_execution_width as nat, self.max_total_threads_per_group as nat),
    {
        lemma_divides_by_remainder(
            self.thread_execution_width as nat,
            self.max_total_threads_per_group as nat,
        );
    }
}

/// A compiled compute pipeline. Nothing in it can be changed, and its thread
/// execution width is positive and divides the most threads that a group may
/// have.
#[derive(Debug)]
pub struct ComputePipelineState {
    label: String,
    max_total_threads_per_group: u64,
    thread_execution_width: u64,
    static_threadgroup_memory_length: u64,
}

/// A compiled compute pipeline as it is seen through a reference.
pub type ComputePipelineStateRef = ComputePipelineState;

impl View for ComputePipelineState {
    type V = ComputePipelineStateView;

    closed spec fn view(&self) -> ComputePipelineStateView {
        ComputePipelineStateView {
            label: self.label@,
            max_total_threads_per_group: self.max_total_threads_per_group,
            thread_execution_width: self.thread_execution_width,
            static_threadgroup_memory_length: self.static_threadgroup_memory_length,
        }
    }
}

impl ComputePipelineState {
    #[verifier::type_invariant]
    spec fn width_divides_group(self) -> bool {
        &&& self.thread_execution_width > 0
        &&& self.max_total_threads_per_group % self.thread_execution_width == 0
    }

    /// The pipeline with these figures, as the driver reported them; none
    /// where the thread execution width is zero or does not divide the most
    /// threads that a group may have.
    pub fn new(
        label: &str,
        max_total_threads_per_group: u64,
        thread_execution_width: u64,
        static_threadgroup_memory_length: u64,
    ) -> (r: Option<Self>)
        ensures
            r is Some <==> thread_execution_width > 0 && max_total_threads_per_group
                % thread_execution_width == 0,
            r matches Some(state) ==> state@ == (ComputePipelineStateView {
                label: label@,
                max_total_threads_per_group,
                thread_execution_width,
                static_threadgroup_memory_length,
            }),
    {
        if thread_execution_width > 0 && max_total_threads_per_group % thread_execution_width == 0 {
            Some(
                ComputePipelineState {
                    label: label.to_owned(),
                    max_total_threads_per_group,
                    thread_execution_width,
                    static_threadgroup_memory_length,
                },
            )
        } else {
            None
        }
    }
}

impl ComputePipelineStateRef {
    /// The name under which the pipeline shows in debugging tools.
    pub fn label(&self) -> (r: &str)
        ensures
            r@ == self@.label,
    {
        self.label.as_str()
    }

    /// The most threads that a thread group of this pipeline may have: a
    /// whole number of times the thread execution width, which is positive.
    pub fn max_total_threads_per_group(&self) -> (r: u64)
        ensures
            r == self@.max_total_threads_per_group,
            self@.well_formed(),
    {
        proof {
            use_type_invariant(self);
        }
        self.max_total_threads_per_group
    }

    /// The number of threads that the device runs in step for this pipeline:
    /// positive, and a divisor of the most threads that a group may have.
    pub fn thread_execution_width(&self) -> (r: u64)
        ensures
            r == self@.thread_execution_width,
            self@.well_formed(),
    {
        proof {
            use_type_invariant(self);
        }
        self.thread_execution_width
    }

    /// The bytes of threadgroup memory that the compiled kernel reserves.
    pub fn static_threadgroup_memory_length(&self) -> (r: u64)
        ensures
            r == self@.static_threadgroup_memory_length,
    {
        self.static_threadgroup_memory_length
    }
}

} // verus!
