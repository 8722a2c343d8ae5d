//! The arduino-cli side: the `ArduinoCoreService` message shapes the helper
//! reads and writes ([`cli`]), and one submodule per RPC that translates between
//! them and the helper's own shapes. The arduino-cli schema never leaks past
//! this module.

pub mod cli;
pub mod stream;
pub mod board;
pub mod compile;
pub mod monitor;
pub mod upload;
