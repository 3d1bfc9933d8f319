//! Core of a display server: the wire-protocol reply framing, the window and
//! property resource model, and the kernel-facing output driver that binds
//! display connectors to rendering pipelines.
//!
//! Kernel calls and client I/O are performed by the surrounding program; this
//! library holds the decisions, layouts and state transitions, each with a
//! verified contract.

pub mod connector;
pub mod get_atom_name;
pub mod protocol;
pub mod window;
