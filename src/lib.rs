//! Planning logic for generating FFI declarations of the GNUnet libraries:
//! header naming and synthesis, the lookup and build plan of the pipeline,
//! and the call-site descriptor handed to the native release routine.

pub mod catalog;
pub mod names;
pub mod pipeline;
pub mod plan;
pub mod release;
pub mod synth;
pub mod theorems;
