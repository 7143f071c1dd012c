//! The package model of the target ecosystem: licenses, platforms and the
//! package descriptor itself.

pub mod license;
pub mod package;
pub mod platforms;

pub use license::NixLicense;
pub use package::{MetaDefaults, NixPackage, NixPackageMeta};
pub use platforms::NixPlatforms;
