//! The core of a minimal init process for containers.
//!
//! The process launches one child command, forwards a fixed set of signals to
//! it, reaps the descendants that it inherits, and ends with an exit code that
//! is derived from the way the child ended. This crate holds the rules of that
//! supervisor: the signals it cares about, the per-thread signal mask, the
//! registry that hands the child's process id to the forwarding thread, the
//! decisions taken for each caught signal, and the mapping from the child's
//! termination to the supervisor's exit code.
//!
//! Threads and the child process itself are created by the program that uses
//! this crate.

pub mod catcher;
pub mod handler;
pub mod mask;
pub mod reap;
pub mod registry;
pub mod signal;
pub mod supervise;
