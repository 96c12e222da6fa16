//! Native backend command layer of a desktop application.
//!
//! The library holds the decision and computation logic of each backend
//! command: building the strings a command answers with, deciding between
//! success and failure, bounding the simulated network delay, and delegating
//! JSON parsing. The thin shell that performs the actual sleeping and file
//! I/O lives outside the library and hands plain values in and out.

pub mod failure;
pub mod commands;
pub mod system_info;
pub mod file_ops;
pub mod decimal;
pub mod network;
pub mod json;
pub mod dispatch;
