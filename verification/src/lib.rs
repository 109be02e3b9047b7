//! FerroFlow: a small tensor engine over interchangeable compute backends.
//!
//! A [`Tensor`] pairs a backend buffer with a [`Shape`] and a shared
//! execution context. Every operation checks shapes first, then hands the
//! numeric work to the backend, and returns a fresh tensor.
//!
//! * [`tensor`] holds shapes, tensors, the routing of matrix products and
//!   chains of operations.
//! * [`compute`] holds the interface every backend offers, the elements of
//!   buffers, the host backend, and the decisions of the GPU backend.
//! * [`error`] holds the one error type, [`text`] what its reports are made
//!   of.
//! * [`laws`] states what holds of all of this together.

pub mod compute;
pub mod error;
pub mod laws;
pub mod tensor;
pub mod text;

pub use compute::{CPUBackend, ComputeBackend, Element, MetalBackend};
pub use error::FerroFlowError;
pub use tensor::{Shape, Tensor};
