//! What the manifest asks to be generated.

use vstd::prelude::*;

verus! {

/// The `settings` table of a manifest. What it does not mention is off.
#[derive(Debug, Clone, Copy, PartialEq, Eq, Structural)]
pub struct TomlSettings {
    pub create_flake: bool,
    pub create_overlay: bool,
    pub create_package: bool,
}

impl Default for TomlSettings {
    fn default() -> (r: Self)
        ensures
            r == (TomlSettings { create_flake: false, create_overlay: false, create_package: false }),
    {
        TomlSettings { create_flake: false, create_overlay: false, create_package: false }
    }
}

} // verus!
