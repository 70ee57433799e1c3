//! Verified core of a small CMake reconfiguration wrapper.
//!
//! The wrapper deletes a stale `CMakeCache.txt` from a build directory and then
//! hands the user's arguments on to the `cmake` executable. This crate holds
//! everything the wrapper decides before touching the system: how the effective
//! build directory is resolved from the command line, which cache file may be
//! deleted, and the exact argument list forwarded downstream.

pub mod invocation;
pub mod plan;
