//! Transparent interception of a child command's standard streams.
//!
//! The crate holds the decisions of a stream interceptor: how bytes read from
//! a source travel to a sink and to an optional log, how a child process is
//! brought down with escalating force, how a termination signal is answered,
//! how a worker's outcome is reported, and how the settings of several sources
//! are merged. Every operation on a descriptor, a process or a file is asked
//! of the caller, who performs it and hands its result back.

pub mod error;
pub mod fd;
pub mod process;
pub mod settings;
pub mod signals;
pub mod text;
pub mod threads;
