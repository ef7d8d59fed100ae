//! Decision logic of a language server that runs an algorithm's `bin/pipe`
//! process, feeds it requests and reports what it answered.

pub mod text;
pub mod error;
pub mod message;
pub mod runner;
pub mod notifier;
pub mod codec;
pub mod server;
pub mod pipe;
pub mod algorithm;
pub mod template;
pub mod dynamic_runner;
pub mod rustc_pipe;
