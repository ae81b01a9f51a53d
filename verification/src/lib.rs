//! Error propagation with explicit call-site traces, and bounds-checked
//! slice access that reports failures through the same error type.

pub mod err;
pub mod slice_ext;
