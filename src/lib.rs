//! Helpers for driving a remote host over SSH: opening an authenticated
//! session, copying a file's contents to and from the host, and running a
//! batch of shell commands with their output captured.

pub mod command;
pub mod error;
pub mod remote;
mod ssh;
