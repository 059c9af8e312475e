//! The core of a host-side agent that keeps one connection per serial
//! device and puts two kinds of traffic on each: a periodic telemetry
//! frame and, once per connection, the files of a local directory in
//! chunks.
//!
//! The crate decides and encodes; it does not touch the transport, the
//! file system or the clock. Whoever drives it scans and opens endpoints,
//! reads files, sleeps, and hands the outcomes back.
//!
//! - `config`: the configuration and how the command line overrides it
//! - `discovery`: which scanned endpoints get a connection
//! - `registry`: the live connections, and the broadcast that prunes them
//! - `monitor`: telemetry values, messages and the alert level
//! - `wire`: the text of the frames
//! - `writer`: the rule of a connection's writer
//! - `sync`: cutting a file into chunks and sending them
//! - `session`: one sync pass over a directory tree, as a state machine
//! - `pass`: what a whole sync pass emits over a given tree
//! - `telemetry`: the decisions of the telemetry loop

pub mod config;
pub mod discovery;
pub mod monitor;
pub mod wire;
pub mod registry;
pub mod sync;
pub mod session;
pub mod telemetry;
pub mod writer;
pub mod pass;
