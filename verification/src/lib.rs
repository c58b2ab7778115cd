//! An HTTP-triggered command runner, reduced to its decisions.
//!
//! A request names a path. When the path, without its leading slash, is the
//! configured secret, one configured command is run and the reply says
//! whether it could be run. Everything here works on plain values: the
//! caller reads the settings, performs the run, and sends the reply.

pub mod config;
pub mod handler;
pub mod path;
pub mod status;
