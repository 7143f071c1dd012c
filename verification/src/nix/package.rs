//! The package descriptor that resolution produces, and its metadata block.

use super::license::NixLicense;
use super::platforms::NixPlatforms;
use crate::text::{opt_text, opt_texts};
use vstd::prelude::*;

verus! {

/// One resolved package.
#[derive(Debug, Clone, PartialEq)]
pub struct NixPackage {
    pub name: String,
    pub pname: String,
    pub src: String,
    pub version: String,
    pub sha256: String,
    pub meta: NixPackageMeta,
}

/// The metadata block of a package. An absent value is `None`, never an
/// empty text.
#[derive(Debug, Clone, PartialEq)]
pub struct NixPackageMeta {
    pub description: Option<String>,
    pub long_description: Option<String>,
    pub branch: Option<String>,
    pub homepage: Option<String>,
    pub download_page: Option<String>,
    pub changelog: Option<Vec<String>>,
    pub license: Option<Vec<NixLicense>>,
    pub priority: Option<String>,
    pub maintainers: Option<String>,
    pub platforms: Option<NixPlatforms>,
    pub tests: Option<String>,
    pub timeout: Option<u64>,
    pub hydra_platforms: Option<String>,
    pub broken: Option<bool>,
    pub update_walker: Option<bool>,
}

/// What a metadata block holds, as mathematical values.
pub struct MetaModel {
    pub description: Option<Seq<char>>,
    pub long_description: Option<Seq<char>>,
    pub branch: Option<Seq<char>>,
    pub homepage: Option<Seq<char>>,
    pub download_page: Option<Seq<char>>,
    pub changelog: Option<Seq<Seq<char>>>,
    pub license: Option<Seq<NixLicense>>,
    pub priority: Option<Seq<char>>,
    pub maintainers: Option<Seq<char>>,
    pub platforms: Option<NixPlatforms>,
    pub tests: Option<Seq<char>>,
    pub timeout: Option<u64>,
    pub hydra_platforms: Option<Seq<char>>,
    pub broken: Option<bool>,
    pub update_walker: Option<bool>,
}

/// What a package descriptor holds, as mathematical values.
pub struct PackageModel {
    pub name: Seq<char>,
    pub pname: Seq<char>,
    pub src: Seq<char>,
    pub version: Seq<char>,
    pub sha256: Seq<char>,
    pub meta: MetaModel,
}

/// What the metadata of a package says where upstream says nothing: who
/// maintains the package, and for which platforms it is meant. It is the
/// configuration that a resolver is given.
#[derive(Debug, Clone, PartialEq, Eq)]
pub struct MetaDefaults {
    pub maintainers: Option<String>,
    pub platforms: Option<NixPlatforms>,
}

/// A package with the configured maintainer and platforms in the place of
/// the fixed ones.
pub open spec fn configured(package: PackageModel, defaults: MetaDefaults) -> PackageModel {
    PackageModel {
        meta: MetaModel {
            maintainers: opt_text(defaults.maintainers),
            platforms: defaults.platforms,
            ..package.meta
        },
        ..package
    }
}

/// The list of licenses behind an optional vector.
pub open spec fn opt_licenses(o: Option<Vec<NixLicense>>) -> Option<Seq<NixLicense>> {
    match o {
        Some(v) => Some(v@),
        None => None,
    }
}

/// The metadata of a package of which nothing is known yet: every field
/// absent but the maintainer and the platform set, which have fixed defaults.
pub open spec fn default_meta() -> MetaModel {
    MetaModel {
        description: None,
        long_description: None,
        branch: None,
        homepage: None,
        download_page: None,
        changelog: None,
        license: None,
        priority: None,
        maintainers: Some("th3whit3wolf"@),
        platforms: Some(NixPlatforms::NoPlatforms),
        tests: None,
        timeout: None,
        hydra_platforms: None,
        broken: None,
        update_walker: None,
    }
}

impl View for NixPackageMeta {
    type V = MetaModel;

    open spec fn view(&self) -> MetaModel {
        MetaModel {
            description: opt_text(self.description),
            long_description: opt_text(self.long_description),
            branch: opt_text(self.branch),
            homepage: opt_text(self.homepage),
            download_page: opt_text(self.download_page),
            changelog: opt_texts(self.changelog),
            license: opt_licenses(self.license),
            priority: opt_text(self.priority),
            maintainers: opt_text(self.maintainers),
            platforms: self.platforms,
            tests: opt_text(self.tests),
            timeout: self.timeout,
            hydra_platforms: opt_text(self.hydra_platforms),
            broken: self.broken,
            update_walker: self.update_walker,
        }
    }
}

impl View for NixPackage {
    type V = PackageModel;

    open spec fn view(&self) -> PackageModel {
        PackageModel {
            name: self.name@,
            pname: self.pname@,
            src: self.src@,
            version: self.version@,
            sha256: self.sha256@,
            meta: self.meta@,
        }
    }
}

impl MetaModel {
    /// What upstream left out or left empty is absent: no text that
    /// resolution fills in is present and empty, and no list is present and
    /// empty or holds an empty text.
    pub open spec fn normalized(self) -> bool {
        &&& self.description != Some(Seq::<char>::empty())
        &&& self.long_description != Some(Seq::<char>::empty())
        &&& self.homepage != Some(Seq::<char>::empty())
        &&& self.changelog matches Some(list) ==> list.len() > 0 && forall|i: int|
            0 <= i < list.len() ==> list[i].len() > 0
        &&& self.license matches Some(list) ==> list.len() > 0
    }
}

/// The default metadata is normalized.
pub proof fn lemma_default_meta_normalized()
    ensures
        default_meta().normalized(),
{
}

impl Default for MetaDefaults {
    /// The configuration of one who configures nothing: the fixed defaults
    /// of the metadata block.
    fn default() -> (r: Self)
        ensures
            opt_text(r.maintainers) == default_meta().maintainers,
            r.platforms == default_meta().platforms,
    {
        MetaDefaults {
            maintainers: Some("th3whit3wolf".to_owned()),
            platforms: Some(NixPlatforms::NoPlatforms),
        }
    }
}

impl NixPackage {
    /// The package with the configured maintainer and platforms.
    pub fn with_defaults(self, defaults: &MetaDefaults) -> (r: NixPackage)
        ensures
            r@ == configured(self@, *defaults),
    {
        let meta = NixPackageMeta {
            description: self.meta.description,
            long_description: self.meta.long_description,
            branch: self.meta.branch,
            homepage: self.meta.homepage,
            download_page: self.meta.download_page,
            changelog: self.meta.changelog,
            license: self.meta.license,
            priority: self.meta.priority,
            maintainers: defaults.maintainers.clone(),
            platforms: defaults.platforms,
            tests: self.meta.tests,
            timeout: self.meta.timeout,
            hydra_platforms: self.meta.hydra_platforms,
            broken: self.meta.broken,
            update_walker: self.meta.update_walker,
        };
        NixPackage {
            name: self.name,
            pname: self.pname,
            src: self.src,
            version: self.version,
            sha256: self.sha256,
            meta,
        }
    }
}

impl Default for NixPackageMeta {
    fn default() -> (r: Self)
        ensures
            r@ == default_meta(),
    {
        NixPackageMeta {
            description: None,
            long_description: None,
            branch: None,
            homepage: None,
            download_page: None,
            changelog: None,
            license: None,
            priority: None,
            maintainers: Some("th3whit3wolf".to_owned()),
            platforms: Some(NixPlatforms::NoPlatforms),
            tests: None,
            timeout: None,
            hydra_platforms: None,
            broken: None,
            update_walker: None,
        }
    }
}

} // verus!
