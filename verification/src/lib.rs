//! A safety layer over a native computation-graph runtime.
//!
//! The runtime itself — graph import, operation execution, tensor
//! allocation — is an opaque collaborator behind a C function table, and
//! nothing here re-implements it. This library owns the decisions around
//! that boundary: it materializes each native status as a plain code and
//! message and translates it into a typed error, models an imported graph
//! as a read-only catalog of operations with borrowed, lifetime-bound
//! views into it, drives the session lifecycle from open through closed to
//! deleted, and checks tensor shapes against their data before any memory
//! would be committed. The surrounding runtime glue performs the native
//! calls and hands their observable outcomes — status pairs, operation
//! records — to the functions here as plain values.

pub mod buffer;
pub mod error;
pub mod graph;
pub mod input;
pub mod operation;
pub mod output;
pub mod session;
pub mod tensor;
pub mod tensor_type;

pub use crate::buffer::StrBuffer;
pub use crate::error::{Error, TFError};
pub use crate::graph::Graph;
pub use crate::input::Input;
pub use crate::operation::Operation;
pub use crate::output::Output;
pub use crate::session::Session;
pub use crate::tensor::Tensor;
pub use crate::tensor_type::TensorType;
