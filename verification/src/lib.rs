//! A debugger server's core: the neutral debugger vocabulary, the WinDbg engine logic, the
//! backend that marshals onto it, and the tool layer above.
#![allow(unused_imports)]

pub mod backend;
pub mod callbacks;
pub mod capabilities;
pub mod com;
pub mod decode;
pub mod engine;
pub mod engine_ops;
pub mod error;
pub mod event;
pub mod factory;
pub mod handlers;
pub mod process;
pub mod registry;
pub mod schema;
pub mod server;
pub mod stream;
pub mod text;
pub mod thread;
pub mod types;
