//! The shared shape of a server stream read from the daemon: each frame is a
//! message, the clean end, or a failed status. The per-RPC modules turn frames
//! into the helper's events, skipping empty frames and ending after the first
//! error.

use vstd::prelude::*;
use crate::error::Error;

verus! {

/// One read from a tonic stream.
#[derive(Debug, Clone)]
pub enum Frame<M> {
    /// A message arrived.
    Message(M),
    /// The stream ended cleanly.
    End,
    /// The stream failed; holds the gRPC status text.
    Failed(String),
}

/// What reading one frame produces.
#[derive(Debug)]
pub enum FrameStep<E> {
    /// Surface this item. An `Err` item is the last one: the stream ends after it.
    Emit(Result<E, Error>),
    /// An empty frame: nothing to surface, keep reading.
    Skip,
    /// The stream is over.
    End,
}

} // verus!
