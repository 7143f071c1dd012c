//! The OpenVSX registry: which address to ask for an extension, and what
//! package its answer describes.

use super::{accept, accepted, Reply, Request};
use crate::error::ResolveError;
use crate::nix::package::{default_meta, MetaModel, PackageModel};
use crate::nix::{NixLicense, NixPackage, NixPackageMeta};
use crate::text::{non_empty, some_if_non_empty, split_in_two, str_eq, two_parts};
use vstd::prelude::*;

verus! {

/// An extension as the OpenVSX registry describes it.
#[derive(Debug, Clone, Default, PartialEq, Eq)]
pub struct OpenVSXExtension {
    pub namespace_url: String,
    pub reviews_url: String,
    pub files: OpenVSXExtensionFile,
    pub name: String,
    pub namespace: String,
    pub version: String,
    pub published_by: OpenVSXExtensionPublishedBy,
    pub verified: bool,
    pub unrelated_publisher: bool,
    pub namespace_access: String,
    pub all_versions: Vec<(String, String)>,
    pub download_count: Option<u64>,
    pub review_count: u64,
    pub version_alias: Vec<String>,
    pub timestamp: String,
    pub preview: bool,
    pub display_name: String,
    pub description: String,
    pub engines: Vec<(String, String)>,
    pub categories: Vec<String>,
    pub extension_kind: Vec<String>,
    pub tags: Vec<String>,
    pub license: String,
    pub repository: String,
    pub bugs: String,
    pub gallery_color: Option<String>,
    pub gallery_theme: Option<String>,
    pub dependencies: Vec<String>,
    pub bundled_extensions: Vec<String>,
}

/// The addresses of the files that belong to an extension.
#[derive(Debug, Clone, Default, PartialEq, Eq)]
pub struct OpenVSXExtensionFile {
    pub changelog: String,
    pub download: String,
    pub readme: String,
    pub icon: String,
    pub manifest: String,
}

/// Who published an extension.
#[derive(Debug, Clone, Default, PartialEq, Eq)]
pub struct OpenVSXExtensionPublishedBy {
    pub login_name: String,
    pub full_name: String,
    pub avatar_url: String,
    pub homepage: String,
    pub provider: String,
}

/// The namespace and the extension name that a unique identifier consists
/// of: the two parts around its one dot. An identifier with no dot, or with
/// more than one, has no such parts.
pub open spec fn segments(id: Seq<char>) -> Option<(Seq<char>, Seq<char>)> {
    two_parts(id, '.')
}

/// The address at which the registry describes the latest version of an
/// extension.
pub open spec fn api_url(namespace: Seq<char>, extension: Seq<char>) -> Seq<char> {
    "https://open-vsx.org/api/"@ + namespace + "/"@ + extension
}

/// The address at which the registry describes one version of an extension.
pub open spec fn api_version_url(
    namespace: Seq<char>,
    extension: Seq<char>,
    version: Seq<char>,
) -> Seq<char> {
    api_url(namespace, extension) + "/"@ + version
}

/// The address from which the registry serves the package archive of one
/// version of an extension.
pub open spec fn download_url(
    namespace: Seq<char>,
    extension: Seq<char>,
    version: Seq<char>,
) -> Seq<char> {
    "https://open-vsx.org/api/"@ + namespace + "/"@ + extension + "/"@ + version + "/file/"@
        + namespace + "."@ + extension + "-"@ + version + ".vsix"@
}

impl OpenVSXExtension {
    /// The request that asks the registry for the latest version of an
    /// extension. An identifier that is not `namespace.extension` is refused
    /// before anything is sent.
    pub fn request(unique_id: &str) -> (r: Result<Request, ResolveError>)
        ensures
            match r {
                Ok(request) => segments(unique_id@) matches Some((namespace, extension))
                    && request.url@ == api_url(namespace, extension) && request.headers@.len()
                    == 0,
                Err(e) => segments(unique_id@) is None && e == ResolveError::InvalidIdentifier,
            },
    {
        match split_in_two(unique_id, '.') {
            None => Err(ResolveError::InvalidIdentifier),
            Some((namespace, extension)) => {
                let mut url = "https://open-vsx.org/api/".to_owned();
                url.append(namespace.as_str());
                url.append("/");
                url.append(extension.as_str());
                Ok(Request { url, headers: Vec::new() })
            },
        }
    }

    /// The request that asks the registry for one version of an extension.
    pub fn request_with_version(unique_id: &str, version: &str) -> (r: Result<
        Request,
        ResolveError,
    >)
        ensures
            match r {
                Ok(request) => segments(unique_id@) matches Some((namespace, extension))
                    && request.url@ == api_version_url(namespace, extension, version@)
                    && request.headers@.len() == 0,
                Err(e) => segments(unique_id@) is None && e == ResolveError::InvalidIdentifier,
            },
    {
        match split_in_two(unique_id, '.') {
            None => Err(ResolveError::InvalidIdentifier),
            Some((namespace, extension)) => {
                let mut url = "https://open-vsx.org/api/".to_owned();
                url.append(namespace.as_str());
                url.append("/");
                url.append(extension.as_str());
                url.append("/");
                url.append(version);
                Ok(Request { url, headers: Vec::new() })
            },
        }
    }

    /// The extension that the registry's reply describes.
    pub fn get(reply: Reply<OpenVSXExtension>) -> (r: Result<Self, ResolveError>)
        ensures
            r == accepted(reply),
    {
        accept(reply)
    }

    /// What the registry's reply to a request for one version is worth: the
    /// extension it describes, if that is the version asked for.
    pub open spec fn accepted_version(
        reply: Reply<OpenVSXExtension>,
        version: Seq<char>,
    ) -> Result<OpenVSXExtension, ResolveError> {
        match accepted(reply) {
            Ok(extension) => if extension.version@ == version {
                Ok(extension)
            } else {
                Err(ResolveError::VersionNotFound)
            },
            Err(e) => Err(e),
        }
    }

    /// The extension that the registry's reply to a request for one version
    /// describes. A reply that describes another version does not hold the
    /// version asked for.
    pub fn get_with_version(reply: Reply<OpenVSXExtension>, version: String) -> (r: Result<
        Self,
        ResolveError,
    >)
        ensures
            r == Self::accepted_version(reply, version@),
    {
        match accept(reply) {
            Ok(extension) => if str_eq(extension.version.as_str(), version.as_str()) {
                Ok(extension)
            } else {
                Err(ResolveError::VersionNotFound)
            },
            Err(e) => Err(e),
        }
    }

    /// The address of the extension's package archive.
    pub fn src(&self) -> (r: String)
        ensures
            r@ == download_url(self.namespace@, self.name@, self.version@),
    {
        let mut url = "https://open-vsx.org/api/".to_owned();
        url.append(self.namespace.as_str());
        url.append("/");
        url.append(self.name.as_str());
        url.append("/");
        url.append(self.version.as_str());
        url.append("/file/");
        url.append(self.namespace.as_str());
        url.append(".");
        url.append(self.name.as_str());
        url.append("-");
        url.append(self.version.as_str());
        url.append(".vsix");
        url
    }

    /// The metadata of the package that the extension becomes, given the
    /// long description found in its README: empty texts are absent, the
    /// license is there where the registry names a known one.
    pub open spec fn meta_model(self, long_description: Seq<char>) -> MetaModel {
        MetaModel {
            description: non_empty(self.description@),
            long_description: non_empty(long_description),
            homepage: non_empty(self.published_by.homepage@),
            license: match NixLicense::spec_from_str(self.license@) {
                Some(l) => Some(seq![l]),
                None => None,
            },
            changelog: match non_empty(self.files.changelog@) {
                Some(c) => Some(seq![c]),
                None => None,
            },
            ..default_meta()
        }
    }

    /// The metadata of a package never holds an empty text where a value is
    /// absent upstream.
    pub proof fn lemma_meta_normalized(self, long_description: Seq<char>)
        ensures
            self.meta_model(long_description).normalized(),
    {
    }

    /// The package that the extension becomes under the manifest key `name`,
    /// given the long description found in its README and the hash of its
    /// package archive.
    pub open spec fn package_model(
        self,
        name: Seq<char>,
        long_description: Seq<char>,
        sha256: Seq<char>,
    ) -> PackageModel {
        PackageModel {
            name,
            pname: self.name@,
            src: download_url(self.namespace@, self.name@, self.version@),
            version: self.version@,
            sha256,
            meta: self.meta_model(long_description),
        }
    }

    /// Builds the package descriptor of the extension. `pname` is the key
    /// under which the manifest lists it; the long description and the hash
    /// are those obtained for its README and its package archive.
    pub fn to_nixpkg(
        self,
        pname: String,
        extract: Option<String>,
        long_description: String,
        sha256: String,
    ) -> (r: NixPackage)
        ensures
            r@ == self.package_model(pname@, long_description@, sha256@),
    {
        let src = self.src();
        let license = match NixLicense::from_str(self.license.as_str()) {
            Some(l) => Some(vec![*l]),
            None => None,
        };
        let ghost changelog_url = self.files.changelog@;
        let changelog = match some_if_non_empty(self.files.changelog) {
            Some(c) => {
                let mut list: Vec<String> = Vec::new();
                list.push(c);
                Some(list)
            },
            None => None,
        };
        let description = some_if_non_empty(self.description);
        let long_description = some_if_non_empty(long_description);
        let homepage = some_if_non_empty(self.published_by.homepage);
        let base = NixPackageMeta::default();
        let meta = NixPackageMeta {
            description,
            long_description,
            homepage,
            license,
            changelog,
            branch: base.branch,
            download_page: base.download_page,
            priority: base.priority,
            maintainers: base.maintainers,
            platforms: base.platforms,
            tests: base.tests,
            timeout: base.timeout,
            hydra_platforms: base.hydra_platforms,
            broken: base.broken,
            update_walker: base.update_walker,
        };
        proof {
            if changelog_url.len() > 0 {
                assert(meta@.changelog->0 =~= seq![changelog_url]);
            }
            if let Some(l) = NixLicense::spec_from_str(self.license@) {
                assert(meta@.license->0 =~= seq![l]);
            }
        }
        NixPackage { name: pname, pname: self.name, src, version: self.version, sha256, meta }
    }
}

} // verus!
