//! The HTTP endpoints of the worker, as steps between the awaits of a handler.

pub mod play;
pub mod queue;
