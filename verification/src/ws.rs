//! The browser-facing side: the `{id, type, payload}` envelope ([`protocol`]),
//! the per-connection session state ([`session`]) and the coalescing of
//! streamed text on the writer path ([`batch`], [`writer`]).

pub mod protocol;
pub mod batch;
pub mod session;
pub mod writer;
