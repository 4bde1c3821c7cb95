//! Resolution of pinned application shortcuts into launch descriptors:
//! an absolute target path, an invocation argument string, and a
//! displayable icon.
//!
//! The core is pure: a parsed shortcut record is turned into a target
//! through a named exception and a fallback chain ([`resolve`]); the
//! icon comes from an explicit icon file or, failing that, from the
//! first icon group of the target executable's resources ([`icon`]),
//! serialized in the icon-file container layout ([`ico`]).  Filesystem
//! reads, directory enumeration and shortcut-file decoding happen
//! outside the library, which receives their outcomes as plain values.

pub mod ico;
pub mod icon;
pub mod paths;
pub mod resolve;
pub mod shortcut;
