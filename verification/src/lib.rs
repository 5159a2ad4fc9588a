//! Host-side core of a worker-style JavaScript runtime.
//!
//! The script engine itself lives with the embedder. This library holds what the
//! host decides around it: how an evaluation's progress maps to a typed result,
//! the single-handler registration slot, the message relay protocol between
//! script and host, the order of the start-up steps and the shape of one
//! event-loop turn.

pub mod base;
pub mod message;
pub mod runtime;
pub mod text;

pub use base::{EvalError, JsContext, JsState};
pub use runtime::JsRuntime;
