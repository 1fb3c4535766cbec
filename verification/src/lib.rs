//! Version resolution and symlink indirection for a per-session toolchain
//! manager.
//!
//! The library decides; it never touches the file system. A caller observes
//! the state of the disk, hands the observations over as plain values, and
//! carries out the steps that come back.

pub mod alias;
pub mod current;
pub mod disk;
pub mod error;
pub mod ident;
pub mod install;
pub mod laws;
pub mod layout;
pub mod resolver;
pub mod session;
pub mod step;
pub mod store;
pub mod text;
