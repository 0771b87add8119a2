//! The loader that lives inside a host process and manages one payload
//! module in it: loading, unloading and reloading the payload, watching
//! the health of the host's Java virtual machine, and reading reload
//! commands from a local channel. With it comes the name mapping that a
//! payload uses to reach into the game.
//!
//! The library decides and keeps the record. Whatever touches files,
//! sockets, threads or native modules is done by its caller, which
//! reports back what happened.

pub mod command;
pub mod health;
pub mod lookup;
pub mod mapping;
pub mod module;
pub mod payload;
pub mod probe;
pub mod reload;
pub mod server;
pub mod text;
