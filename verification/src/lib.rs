//! thingblock-link.

pub mod text;
pub mod error;
pub mod ws;
pub mod bridge;
pub mod grpc;
pub mod resource;
pub mod daemon;
pub mod tray;
pub mod window;
