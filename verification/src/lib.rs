//! A minimal error abstraction for environments that provide a heap allocator
//! but no operating-system runtime: a trait every error type implements, a
//! type-erased owning handle to use as the error arm of a `Result`, and a
//! ready-made generic error for callers without a bespoke error type.

pub mod error;
pub mod generic;
pub mod handle;

pub use crate::error::Error;
pub use crate::error::ErrorDisplay;
pub use crate::generic::GenericError;
pub use crate::handle::BoxError;
