//! Manifest entries for extensions of the VSCode marketplace.

use super::config::Overlay;
use vstd::prelude::*;

verus! {

/// The overlay that an entry gets where it names none.
pub fn default_overlay() -> (r: Option<Overlay>)
    ensures
        r == Some(Overlay::VSCode),
{
    Some(Overlay::VSCode)
}

/// An entry written as a table.
#[derive(Debug, Clone, PartialEq, Eq)]
pub struct DetailedTomlVSCodeMarketPlacePackage {
    /// The unique identifier of the extension.
    pub src: String,
    /// The version to resolve; the latest one where there is none.
    pub pin: Option<String>,
    /// A path inside the package archive.
    pub extract: Option<String>,
    /// The overlay that the package belongs to.
    pub overlay: Option<Overlay>,
    /// Keys and values that are handed through as they are.
    pub passthru: Option<Vec<(String, String)>>,
}

/// An entry of the manifest: a bare unique identifier, or a table.
#[derive(Debug, Clone, PartialEq, Eq)]
pub enum TomlVSCodeMarketPlacePackage {
    /// `extension = "<unique.id>"`
    Simple(String),
    /// `extension = { src = "<unique.id>", .. }`
    Detailed(DetailedTomlVSCodeMarketPlacePackage),
}

impl TomlVSCodeMarketPlacePackage {
    /// The unique identifier that the entry names.
    pub open spec fn id(self) -> String {
        match self {
            TomlVSCodeMarketPlacePackage::Simple(id) => id,
            TomlVSCodeMarketPlacePackage::Detailed(details) => details.src,
        }
    }

    /// The version that the entry is pinned to, if it is pinned.
    pub open spec fn pinned(self) -> Option<String> {
        match self {
            TomlVSCodeMarketPlacePackage::Simple(_) => None,
            TomlVSCodeMarketPlacePackage::Detailed(details) => details.pin,
        }
    }

    /// The path inside the package archive that the entry names, if any.
    pub open spec fn extracted(self) -> Option<String> {
        match self {
            TomlVSCodeMarketPlacePackage::Simple(_) => None,
            TomlVSCodeMarketPlacePackage::Detailed(details) => details.extract,
        }
    }

    /// The unique identifier that the entry names.
    pub fn unique_id(&self) -> (r: &String)
        ensures
            *r == self.id(),
    {
        match self {
            TomlVSCodeMarketPlacePackage::Simple(id) => id,
            TomlVSCodeMarketPlacePackage::Detailed(details) => &details.src,
        }
    }

    /// The version that the entry is pinned to, if it is pinned.
    pub fn pin(&self) -> (r: &Option<String>)
        ensures
            *r == self.pinned(),
    {
        match self {
            TomlVSCodeMarketPlacePackage::Simple(_) => &None,
            TomlVSCodeMarketPlacePackage::Detailed(details) => &details.pin,
        }
    }
}

impl TomlVSCodeMarketPlacePackage {
    /// Takes the entry apart: its unique identifier, its pin and its path
    /// inside the archive.
    pub fn into_parts(self) -> (r: (String, Option<String>, Option<String>))
        ensures
            r == (self.id(), self.pinned(), self.extracted()),
    {
        match self {
            TomlVSCodeMarketPlacePackage::Simple(id) => (id, None, None),
            TomlVSCodeMarketPlacePackage::Detailed(details) => (details.src, details.pin, details.extract),
        }
    }
}

} // verus!
