//! Identification and switching of Linux namespace membership.
//!
//! A namespace of a given kind is identified by the inode number the kernel
//! exposes through the `/proc/<pid>/ns/<tag>` symlink. This crate verifies
//! the logic of that identification and of the enter/logic/exit switch
//! protocol: the tag taxonomy, the symlink-target parser, and the decisions
//! and error precedence of a switch. The raw OS calls (reading the symlink,
//! opening the namespace files, `setns`) live outside the library and hand
//! it plain values.

pub mod digits;
pub mod identity;
pub mod kind;
pub mod switcher;

pub use identity::Namespace;
pub use identity::NsError;
pub use kind::Kind;
pub use switcher::Error;
pub use switcher::Switcher;
