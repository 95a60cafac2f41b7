//! Per-key admission control in front of an HTTP request handler.
//!
//! A request passes a method filter, a key extractor and a quota tracker;
//! the outcome is either an instruction to forward the request, with the
//! headers to attach to the handler's response, or a synthesized reply.

pub mod future;
pub mod governor;
pub mod guarantees;
pub mod headers;
pub mod key_extractor;
pub mod method;
pub mod quota;
pub mod response;

pub use future::{Kind, ResponseFuture};
pub use governor::{Governor, GovernorConfig, GovernorLayer};
