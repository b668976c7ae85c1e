//! Protocols that decide whether a local IPC endpoint may be trusted.
//!
//! `listener` is the Unix side: it checks the directory that holds a listening
//! socket and gives the bound socket an exact mode. `pipe` and `process` are the
//! Windows side: they connect to a named pipe only once its server has been
//! verified. Each protocol is a run that names the system call it waits for and
//! moves on with the reply, so that every decision is taken, and proved, here,
//! and the system calls themselves are made by the driver around it.

pub mod error;
pub mod text;
pub mod paths;
pub mod host;
pub mod status;
pub mod parent;
pub mod listener;
pub mod listener_laws;
pub mod win32;
pub mod buffer;
pub mod process;
pub mod server;
pub mod pipe;
pub mod pipe_laws;
