//! Descriptor values for compute pipelines of the Metal framework, with the
//! integer encodings under which they cross to the native runtime.

pub mod attributes;
pub mod buffers;
pub mod encoding;
pub mod layouts;
pub mod native;
pub mod stage_input;
pub mod descriptor;
pub mod state;
