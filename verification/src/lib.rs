//! Lifecycle manager for tunnel-backed virtual network interfaces.
//!
//! The crate holds the decision logic of an updown hook: deriving a
//! deterministic interface name from a connection identifier, classifying a
//! link's attribute records against a desired specification, planning the
//! create/verify/move/delete sequence that reconciles the kernel's link table
//! with that specification, and producing the line-oriented commands sent to
//! a routing daemon's control socket.  The surrounding process performs the
//! netlink, namespace and socket operations and feeds their outcomes back as
//! events.

pub mod babeld;
pub mod laws;
pub mod link;
pub mod naming;
pub mod reconcile;
pub mod text;
pub mod trigger;
