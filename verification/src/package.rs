//! The manifest: which packages are wanted, from which registry, and how
//! each is pinned.

pub mod config;
pub mod github;
pub mod openvsx;
pub mod settings;
pub mod vsmarketplace;

pub use config::{Entry, Overlay, PackageSpec, TomlManifest};
pub use github::{DetailedTomlGitHubPackage, GitHubLatest, GitHubPin, TomlGitHubPackage};
pub use openvsx::{DetailedTomlOpenVSXPackage, TomlOpenVSXPackage};
pub use settings::TomlSettings;
pub use vsmarketplace::{DetailedTomlVSCodeMarketPlacePackage, TomlVSCodeMarketPlacePackage};

use vstd::prelude::*;

verus! {

/// The registries that serve editor extensions.
#[derive(Debug, Clone, Copy, PartialEq, Eq, Structural)]
pub enum Sources {
    VSCodeMarketPlace,
    OpenVSX,
}

/// A wanted extension: its unique identifier and the registry that serves it.
#[derive(Debug, Clone, PartialEq, Eq)]
pub struct Package {
    pub name: String,
    pub src: Sources,
}

/// What kind of thing a package is, and who publishes it under which name.
#[derive(Debug, Clone, PartialEq, Eq)]
pub enum PackageKind {
    VscodeExtension { publisher: String, extension_name: String },
    OpenVSX { publisher: String, extension_name: String },
    Other,
}

} // verus!
