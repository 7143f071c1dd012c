//! Turns a manifest of editor extensions, each named by a GitHub repository,
//! an OpenVSX identifier or a VSCode marketplace identifier, into package
//! descriptors for Nix: one canonical block of metadata per extension, with
//! the address and the content hash of its artifact.
//!
//! The library decides and computes; it sends nothing. A
//! [`resolve::Resolver`] says which request it needs answered next and takes
//! the answer, until every wanted package has ended in a descriptor or in an
//! error of its own.

pub mod error;
pub mod nix;
pub mod package;
pub mod resolve;
pub mod sources;
pub mod text;
