//! Resolving a package, one upstream answer at a time. A resolution says
//! what it needs next from the outside world, takes the answer, and ends in
//! a package descriptor or in an error. It performs no request itself.

use crate::error::ResolveError;
use crate::nix::package::configured;
use crate::nix::{MetaDefaults, NixLicense, NixPackage};
use crate::package::config::PackageSpec;
use crate::package::github::TomlGitHubPackage;
use crate::package::openvsx::TomlOpenVSXPackage;
use crate::package::vsmarketplace::TomlVSCodeMarketPlacePackage;
use crate::sources::github::{
    api_headers, archive_url, license_url, owner_and_name, repo_url, reported_license,
    wanted_ref, GitHubLicense, GitHubRepo,
};
use crate::sources::links::{manifest_links, parsed_xml, ManifestLinks};
use crate::sources::openvsx::{
    api_url, api_version_url, download_url, segments, OpenVSXExtension,
};
use crate::sources::vscodemarketplace::{
    asset_url, pin_text, query_address, query_headers, refined_reply, Query,
    VSMarketPlaceExtensionRefined, VSMarketPlaceQueryResultResponse,
};
use crate::sources::{
    accept, accepted, described, get_hash, get_long_description, hashed, header_pairs, HashRun,
    Reply, Request,
};
use crate::text::opt_text;
use vstd::prelude::*;

verus! {

/// What a resolution needs next from the outside world.
#[derive(Debug, Clone, PartialEq, Eq)]
pub enum Action {
    /// Ask the OpenVSX registry; the answer is an extension.
    AskOpenVsx(Request),
    /// Ask the marketplace gallery; the answer is a set of query results.
    AskGallery(Query),
    /// Ask the GitHub API for a repository.
    AskRepository(Request),
    /// Ask the GitHub API for the license of a repository.
    AskLicense(Request),
    /// Fetch a text document.
    AskText(Request),
    /// Download the artifact at the address and hash it.
    Hash(String),
    /// Nothing: the resolution has ended.
    Nothing,
}

/// What came back from the outside world.
#[derive(Debug, Clone, PartialEq, Eq)]
pub enum Event {
    OpenVsx(Reply<OpenVSXExtension>),
    Gallery(Reply<VSMarketPlaceQueryResultResponse>),
    Repository(Reply<GitHubRepo>),
    License(Reply<GitHubLicense>),
    Text(Reply<String>),
    Hash(HashRun),
}

/// How far the resolution of one package has come. Each state but the last
/// waits for one answer.
#[derive(Debug, PartialEq)]
pub enum Resolution {
    /// Waiting for the OpenVSX registry to describe the extension.
    OpenVsxRegistry { name: String, package: TomlOpenVSXPackage },
    /// Waiting for the extension's README.
    OpenVsxReadme { name: String, extract: Option<String>, extension: OpenVSXExtension },
    /// Waiting for the hash of the extension's package archive.
    OpenVsxArchive {
        name: String,
        extract: Option<String>,
        extension: OpenVSXExtension,
        long_description: String,
    },
    /// Waiting for the marketplace gallery to answer the query.
    Gallery { name: String, package: TomlVSCodeMarketPlacePackage },
    /// Waiting for the extension's manifest document.
    GalleryManifest { name: String, extension: VSMarketPlaceExtensionRefined },
    /// Waiting for the extension's README.
    GalleryReadme { name: String, extension: VSMarketPlaceExtensionRefined, links: ManifestLinks },
    /// Waiting for the license of the extension's repository.
    GalleryLicense {
        name: String,
        extension: VSMarketPlaceExtensionRefined,
        links: ManifestLinks,
        long_description: String,
    },
    /// Waiting for the hash of the extension's package archive.
    GalleryArchive {
        name: String,
        extension: VSMarketPlaceExtensionRefined,
        links: ManifestLinks,
        long_description: String,
        license: Option<NixLicense>,
    },
    /// Waiting for the GitHub API to describe the repository.
    Repository { name: String, package: TomlGitHubPackage },
    /// Waiting for the hash of the repository's archive.
    RepositoryArchive { name: String, package: TomlGitHubPackage, repo: GitHubRepo },
    /// The resolution has ended, in a package or in an error.
    Finished(Result<NixPackage, ResolveError>),
}

/// The long description that the reply to a request for a README gives. A
/// README that could not be had gives none: that is a gap, not a failure.
pub open spec fn readme_text(reply: Reply<String>) -> Seq<char> {
    match described(reply) {
        Ok(text) => text,
        Err(_) => Seq::empty(),
    }
}

/// The license that the reply to a request for a repository's license
/// gives. A license that could not be had is a gap, not a failure.
pub open spec fn license_of(reply: Reply<GitHubLicense>) -> Option<NixLicense> {
    match accepted(reply) {
        Ok(reported) => reported_license(reported.spdx_id@, reported.name@),
        Err(_) => None,
    }
}

/// The links that the reply to a request for a manifest document gives. A
/// manifest that could not be had declares none.
pub open spec fn links_hold(links: ManifestLinks, reply: Reply<String>) -> bool {
    match accepted(reply) {
        Ok(document) => links.holds(manifest_links(parsed_xml(document@))),
        Err(_) => links.homepage is None && links.github is None && links.source is None,
    }
}

/// The state after the README of a marketplace extension: the license of
/// its repository is asked for where its links name one. Where they name
/// none the package has no license and its archive comes next.
pub open spec fn after_readme(
    name: String,
    extension: VSMarketPlaceExtensionRefined,
    links: ManifestLinks,
    long_description: Seq<char>,
    next: Resolution,
) -> bool {
    if links.repository_model() is Some {
        next matches Resolution::GalleryLicense { name: n, extension: x, links: l, long_description: d }
            && n == name && x == extension && l == links && d@ == long_description
    } else {
        next matches Resolution::GalleryArchive {
            name: n,
            extension: x,
            links: l,
            long_description: d,
            license,
        } && n == name && x == extension && l == links && d@ == long_description && license is None
    }
}

/// The state after the manifest document of a marketplace extension: its
/// README is asked for where the gallery serves one.
pub open spec fn after_manifest(
    name: String,
    extension: VSMarketPlaceExtensionRefined,
    links: ManifestLinks,
    next: Resolution,
) -> bool {
    if extension.readme_url is Some {
        next == (Resolution::GalleryReadme { name, extension, links })
    } else {
        after_readme(name, extension, links, Seq::empty(), next)
    }
}

impl Resolution {
    /// The state in which the resolution of a manifest entry begins. An
    /// entry whose identifier is malformed fails at once, before anything is
    /// asked of its registry.
    pub open spec fn begun(spec: PackageSpec) -> Resolution {
        match spec {
            PackageSpec::OpenVSX { name, package } => if segments(package.id()@) is Some {
                Resolution::OpenVsxRegistry { name, package }
            } else {
                Resolution::Finished(Err(ResolveError::InvalidIdentifier))
            },
            PackageSpec::VSCodeMarketPlace { name, package } => Resolution::Gallery {
                name,
                package,
            },
            PackageSpec::GitHub { name, package } => if owner_and_name(package.id()@) is Some {
                Resolution::Repository { name, package }
            } else {
                Resolution::Finished(Err(ResolveError::InvalidIdentifier))
            },
        }
    }

    /// Whether `action` is what the resolution needs next.
    pub open spec fn plans(self, action: Action) -> bool {
        match self {
            Resolution::OpenVsxRegistry { name, package } => match segments(package.id()@) {
                Some((namespace, extension)) => action matches Action::AskOpenVsx(request)
                    && request.headers@.len() == 0 && request.url@ == match package.pinned() {
                    Some(version) => api_version_url(namespace, extension, version@),
                    None => api_url(namespace, extension),
                },
                None => action == Action::Nothing,
            },
            Resolution::OpenVsxReadme { name, extract, extension } => action matches Action::AskText(
                request,
            ) && request.headers@.len() == 0 && request.url@ == extension.files.readme@,
            Resolution::OpenVsxArchive { name, extract, extension, long_description } => action matches Action::Hash(
                url,
            ) && url@ == download_url(extension.namespace@, extension.name@, extension.version@),
            Resolution::Gallery { name, package } => action matches Action::AskGallery(query)
                && query.url@ == query_address() && header_pairs(
                query.headers@,
            ) == query_headers() && query.payload.asks_for(package.id()@),
            Resolution::GalleryManifest { name, extension } => action matches Action::AskText(
                request,
            ) && request.headers@.len() == 0 && request.url@ == extension.vsix_manifest_url@,
            Resolution::GalleryReadme { name, extension, links } => match extension.readme_url {
                Some(readme) => action matches Action::AskText(request) && request.headers@.len()
                    == 0 && request.url@ == readme@,
                None => action == Action::Nothing,
            },
            Resolution::GalleryLicense { name, extension, links, long_description } => match links.repository_model() {
                Some((owner, repo)) => action matches Action::AskLicense(request) && request.url@
                    == license_url(owner, repo) && header_pairs(
                    request.headers@,
                ) == api_headers(),
                None => action == Action::Nothing,
            },
            Resolution::GalleryArchive { name, extension, links, long_description, license } => action matches Action::Hash(
                url,
            ) && url@ == asset_url(extension.publisher@, extension.extension_name@, extension.version@),
            Resolution::Repository { name, package } => match owner_and_name(package.id()@) {
                Some((owner, repo)) => action matches Action::AskRepository(request) && request.url@
                    == repo_url(owner, repo) && header_pairs(
                    request.headers@,
                ) == api_headers(),
                None => action == Action::Nothing,
            },
            Resolution::RepositoryArchive { name, package, repo } => action matches Action::Hash(url)
                && url@ == archive_url(repo.full_name@, wanted_ref(package, repo.default_branch)@),
            Resolution::Finished(_) => action == Action::Nothing,
        }
    }

    /// Whether `next` is the state that follows this one on `event`.
    ///
    /// A failure of the registry, of the choice of version and assets, or of
    /// hashing ends the resolution in that error. A manifest, a README or a
    /// license that cannot be had leaves the field it would have filled
    /// absent. An answer of a kind that the state does not wait for ends the
    /// resolution in `UnexpectedEvent`; a finished resolution stays as it is.
    pub open spec fn advances(self, event: Event, next: Resolution) -> bool {
        match (self, event) {
            (Resolution::OpenVsxRegistry { name, package }, Event::OpenVsx(reply)) => match (
                match package.pinned() {
                    Some(version) => OpenVSXExtension::accepted_version(reply, version@),
                    None => accepted(reply),
                }
            ) {
                Ok(extension) => next == (Resolution::OpenVsxReadme {
                    name,
                    extract: package.extracted(),
                    extension,
                }),
                Err(e) => next == Resolution::Finished(Err(e)),
            },
            (Resolution::OpenVsxReadme { name, extract, extension }, Event::Text(reply)) => next matches Resolution::OpenVsxArchive {
                name: n,
                extract: x,
                extension: e,
                long_description: d,
            } && n == name && x == extract && e == extension && d@ == readme_text(reply),
            (
                Resolution::OpenVsxArchive { name, extract, extension, long_description },
                Event::Hash(run),
            ) => match hashed(run) {
                Ok(digest) => next matches Resolution::Finished(Ok(package)) && package@
                    == extension.package_model(name@, long_description@, digest@),
                Err(e) => next == Resolution::Finished(Err(e)),
            },
            (Resolution::Gallery { name, package }, Event::Gallery(reply)) => match refined_reply(
                reply,
                opt_text(package.pinned()),
            ) {
                Ok(kept) => next matches Resolution::GalleryManifest { name: n, extension: x } && n
                    == name && x@ == kept,
                Err(e) => next == Resolution::Finished(Err(e)),
            },
            (Resolution::GalleryManifest { name, extension }, Event::Text(reply)) => exists|
                links: ManifestLinks,
            |
                links_hold(links, reply) && after_manifest(name, extension, links, next),
            (Resolution::GalleryReadme { name, extension, links }, Event::Text(reply)) => after_readme(
                name,
                extension,
                links,
                readme_text(reply),
                next,
            ),
            (
                Resolution::GalleryLicense { name, extension, links, long_description },
                Event::License(reply),
            ) => next == (Resolution::GalleryArchive {
                name,
                extension,
                links,
                long_description,
                license: license_of(reply),
            }),
            (
                Resolution::GalleryArchive { name, extension, links, long_description, license },
                Event::Hash(run),
            ) => match hashed(run) {
                Ok(digest) => next matches Resolution::Finished(Ok(package)) && package@
                    == extension.package_model(name@, links, long_description@, license, digest@),
                Err(e) => next == Resolution::Finished(Err(e)),
            },
            (Resolution::Repository { name, package }, Event::Repository(reply)) => match accepted(
                reply,
            ) {
                Ok(repo) => next == (Resolution::RepositoryArchive { name, package, repo }),
                Err(e) => next == Resolution::Finished(Err(e)),
            },
            (Resolution::RepositoryArchive { name, package, repo }, Event::Hash(run)) => match hashed(
                run,
            ) {
                Ok(digest) => next matches Resolution::Finished(Ok(built)) && built@
                    == repo.package_model(
                    name@,
                    wanted_ref(package, repo.default_branch)@,
                    digest@,
                ),
                Err(e) => next == Resolution::Finished(Err(e)),
            },
            (Resolution::Finished(result), _) => next == Resolution::Finished(result),
            _ => next == Resolution::Finished(Err(ResolveError::UnexpectedEvent)),
        }
    }

    /// Whether the resolution waits for an answer to a request that it can
    /// make: it has not ended, and what its request is made of is there. The
    /// states that `begun` and `advances` lead to are of this kind or ended.
    pub open spec fn waits(self) -> bool {
        match self {
            Resolution::OpenVsxRegistry { name, package } => segments(package.id()@) is Some,
            Resolution::GalleryReadme { name, extension, links } => extension.readme_url is Some,
            Resolution::GalleryLicense { name, extension, links, long_description } =>
                links.repository_model() is Some,
            Resolution::Repository { name, package } => owner_and_name(package.id()@) is Some,
            Resolution::Finished(_) => false,
            _ => true,
        }
    }

    /// A resolution that waits plans a request, never nothing.
    pub proof fn lemma_waiting_plans_a_request(self, action: Action)
        requires
            self.waits(),
            self.plans(action),
        ensures
            action != Action::Nothing,
    {
    }

    /// How many answers the resolution waits for at most before it ends.
    pub open spec fn steps_left(self) -> nat {
        match self {
            Resolution::OpenVsxRegistry { .. } => 3,
            Resolution::OpenVsxReadme { .. } => 2,
            Resolution::OpenVsxArchive { .. } => 1,
            Resolution::Gallery { .. } => 5,
            Resolution::GalleryManifest { .. } => 4,
            Resolution::GalleryReadme { .. } => 3,
            Resolution::GalleryLicense { .. } => 2,
            Resolution::GalleryArchive { .. } => 1,
            Resolution::Repository { .. } => 2,
            Resolution::RepositoryArchive { .. } => 1,
            Resolution::Finished(_) => 0,
        }
    }

    /// Begins the resolution of a manifest entry.
    pub fn start(spec: PackageSpec) -> (r: Resolution)
        ensures
            r == Self::begun(spec),
            r is Finished || r.waits(),
    {
        match spec {
            PackageSpec::OpenVSX { name, package } => {
                match crate::text::split_in_two(package.unique_id().as_str(), '.') {
                    Some(_) => Resolution::OpenVsxRegistry { name, package },
                    None => Resolution::Finished(Err(ResolveError::InvalidIdentifier)),
                }
            },
            PackageSpec::VSCodeMarketPlace { name, package } => Resolution::Gallery {
                name,
                package,
            },
            PackageSpec::GitHub { name, package } => {
                match crate::text::split_in_two(package.repository().as_str(), '/') {
                    Some(_) => Resolution::Repository { name, package },
                    None => Resolution::Finished(Err(ResolveError::InvalidIdentifier)),
                }
            },
        }
    }

    /// Whether the resolution has ended.
    pub fn is_finished(&self) -> (r: bool)
        ensures
            r == (*self is Finished),
    {
        match self {
            Resolution::Finished(_) => true,
            _ => false,
        }
    }

    /// Whether the resolution waits for an answer to a request that it can
    /// make.
    pub fn is_waiting(&self) -> (r: bool)
        ensures
            r == self.waits(),
    {
        match self {
            Resolution::OpenVsxRegistry { name, package } => crate::text::split_in_two(
                package.unique_id().as_str(),
                '.',
            ).is_some(),
            Resolution::GalleryReadme { name, extension, links } => extension.readme_url.is_some(),
            Resolution::GalleryLicense { name, extension, links, long_description } =>
                links.repository().is_some(),
            Resolution::Repository { name, package } => crate::text::split_in_two(
                package.repository().as_str(),
                '/',
            ).is_some(),
            Resolution::Finished(_) => false,
            _ => true,
        }
    }

    /// What the resolution needs next: a request where it waits for an
    /// answer, nothing where it has ended.
    pub fn action(&self) -> (action: Action)
        ensures
            self.plans(action),
            self.waits() ==> action != Action::Nothing,
    {
        match self {
            Resolution::OpenVsxRegistry { name, package } => {
                let request = match package.pin() {
                    Some(version) => OpenVSXExtension::request_with_version(
                        package.unique_id().as_str(),
                        version.as_str(),
                    ),
                    None => OpenVSXExtension::request(package.unique_id().as_str()),
                };
                match request {
                    Ok(request) => Action::AskOpenVsx(request),
                    Err(_) => Action::Nothing,
                }
            },
            Resolution::OpenVsxReadme { name, extract, extension } => Action::AskText(
                Request { url: extension.files.readme.clone(), headers: Vec::new() },
            ),
            Resolution::OpenVsxArchive { name, extract, extension, long_description } => Action::Hash(
                extension.src(),
            ),
            Resolution::Gallery { name, package } => Action::AskGallery(
                VSMarketPlaceExtensionRefined::request(package.unique_id().clone()),
            ),
            Resolution::GalleryManifest { name, extension } => Action::AskText(
                Request { url: extension.vsix_manifest_url.clone(), headers: Vec::new() },
            ),
            Resolution::GalleryReadme { name, extension, links } => match &extension.readme_url {
                Some(readme) => Action::AskText(
                    Request { url: readme.clone(), headers: Vec::new() },
                ),
                None => Action::Nothing,
            },
            Resolution::GalleryLicense { name, extension, links, long_description } => match links.repository() {
                Some((owner, repo)) => Action::AskLicense(
                    GitHubLicense::request(owner.as_str(), repo.as_str()),
                ),
                None => Action::Nothing,
            },
            Resolution::GalleryArchive { name, extension, links, long_description, license } => Action::Hash(
                extension.src(),
            ),
            Resolution::Repository { name, package } => match GitHubRepo::request(
                package.repository().as_str(),
            ) {
                Ok(request) => Action::AskRepository(request),
                Err(_) => Action::Nothing,
            },
            Resolution::RepositoryArchive { name, package, repo } => Action::Hash(
                repo.src(repo.reference(package).as_str()),
            ),
            Resolution::Finished(_) => Action::Nothing,
        }
    }

    /// Takes an answer from the outside world and moves on.
    pub fn advance(self, event: Event) -> (next: Resolution)
        ensures
            self.advances(event, next),
            next is Finished || next.waits(),
            !(self is Finished) ==> next.steps_left() < self.steps_left(),
    {
        match (self, event) {
            (Resolution::OpenVsxRegistry { name, package }, Event::OpenVsx(reply)) => {
                let (_, pin, extract) = package.into_parts();
                let described = match pin {
                    Some(version) => OpenVSXExtension::get_with_version(reply, version),
                    None => OpenVSXExtension::get(reply),
                };
                match described {
                    Ok(extension) => Resolution::OpenVsxReadme { name, extract, extension },
                    Err(e) => Resolution::Finished(Err(e)),
                }
            },
            (Resolution::OpenVsxReadme { name, extract, extension }, Event::Text(reply)) => {
                let long_description = readme_of(reply);
                Resolution::OpenVsxArchive { name, extract, extension, long_description }
            },
            (
                Resolution::OpenVsxArchive { name, extract, extension, long_description },
                Event::Hash(run),
            ) => {
                match get_hash(run) {
                    Ok(digest) => Resolution::Finished(
                        Ok(extension.to_nixpkg(name, extract, long_description, digest)),
                    ),
                    Err(e) => Resolution::Finished(Err(e)),
                }
            },
            (Resolution::Gallery { name, package }, Event::Gallery(reply)) => {
                let (_, pin, _) = package.into_parts();
                let kept = match pin {
                    Some(version) => VSMarketPlaceExtensionRefined::get_with_version(
                        reply,
                        version,
                    ),
                    None => VSMarketPlaceExtensionRefined::get(reply),
                };
                match kept {
                    Ok(extension) => Resolution::GalleryManifest { name, extension },
                    Err(e) => Resolution::Finished(Err(e)),
                }
            },
            (Resolution::GalleryManifest { name, extension }, Event::Text(reply)) => {
                let links = match accept(reply) {
                    Ok(document) => ManifestLinks::parse(document.as_str()),
                    Err(_) => ManifestLinks::none(),
                };
                assert(links_hold(links, reply));
                if extension.readme_url.is_some() {
                    Resolution::GalleryReadme { name, extension, links }
                } else {
                    gallery_after_readme(name, extension, links, String::new())
                }
            },
            (Resolution::GalleryReadme { name, extension, links }, Event::Text(reply)) => {
                let long_description = readme_of(reply);
                gallery_after_readme(name, extension, links, long_description)
            },
            (
                Resolution::GalleryLicense { name, extension, links, long_description },
                Event::License(reply),
            ) => {
                let license = match accept(reply) {
                    Ok(reported) => reported.nix_license(),
                    Err(_) => None,
                };
                Resolution::GalleryArchive { name, extension, links, long_description, license }
            },
            (
                Resolution::GalleryArchive { name, extension, links, long_description, license },
                Event::Hash(run),
            ) => {
                match get_hash(run) {
                    Ok(digest) => Resolution::Finished(
                        Ok(extension.to_nixpkg(name, links, long_description, license, digest)),
                    ),
                    Err(e) => Resolution::Finished(Err(e)),
                }
            },
            (Resolution::Repository { name, package }, Event::Repository(reply)) => {
                match accept(reply) {
                    Ok(repo) => Resolution::RepositoryArchive { name, package, repo },
                    Err(e) => Resolution::Finished(Err(e)),
                }
            },
            (Resolution::RepositoryArchive { name, package, repo }, Event::Hash(run)) => {
                match get_hash(run) {
                    Ok(digest) => {
                        let reference = repo.reference(&package).clone();
                        Resolution::Finished(Ok(repo.to_nixpkg(name, reference, digest)))
                    },
                    Err(e) => Resolution::Finished(Err(e)),
                }
            },
            (Resolution::Finished(result), _) => Resolution::Finished(result),
            _ => Resolution::Finished(Err(ResolveError::UnexpectedEvent)),
        }
    }
}

/// The resolution of the packages of a manifest, one after another. Each
/// package ends in a result of its own, a descriptor or an error: a package
/// that fails takes no other package with it.
#[derive(Debug, PartialEq)]
pub struct Resolver {
    /// The entries that are not begun yet, in order.
    pub pending: Vec<PackageSpec>,
    /// The results of the entries that have ended, in the order of the
    /// entries.
    pub results: Vec<Result<NixPackage, ResolveError>>,
    /// The resolution that is under way, if any.
    pub current: Option<Resolution>,
    /// How many entries there are in all.
    pub total: usize,
    /// The maintainer and the platforms that every package gets.
    pub defaults: MetaDefaults,
}

impl Resolver {
    /// Every entry is pending, under way or has its result; a resolution
    /// under way waits for an answer; nothing is pending once none is under
    /// way.
    pub open spec fn wf(self) -> bool {
        &&& match self.current {
            Some(c) => c.waits() && self.results@.len() + self.pending@.len() + 1
                == self.total,
            None => self.pending@.len() == 0 && self.results@.len() == self.total,
        }
    }

    /// Whether `recorded` is what the resolver records for the outcome of a
    /// resolution: the package with the configured maintainer and
    /// platforms, or the error as it is.
    pub open spec fn records(
        self,
        outcome: Result<NixPackage, ResolveError>,
        recorded: Result<NixPackage, ResolveError>,
    ) -> bool {
        match outcome {
            Ok(package) => recorded matches Ok(kept) && kept@ == configured(
                package@,
                self.defaults,
            ),
            Err(e) => recorded == Err::<NixPackage, ResolveError>(e),
        }
    }

    /// Whether every entry has its result.
    pub open spec fn done(self) -> bool {
        self.current is None
    }

    /// An upper bound on the number of answers that are still waited for.
    pub open spec fn remaining(self) -> nat {
        self.pending@.len() * 6 + match self.current {
            Some(c) => c.steps_left(),
            None => 0,
        }
    }

    /// Whether this is the state reached from the results `done` and the
    /// pending entries `pending` by beginning the next entry: the entries
    /// that fail at once get their error as result, in order, and the first
    /// that does not is under way.
    pub open spec fn settles(
        self,
        pending: Seq<PackageSpec>,
        done: Seq<Result<NixPackage, ResolveError>>,
    ) -> bool {
        let failed = self.results@.len() - done.len();
        &&& 0 <= failed <= pending.len()
        &&& self.results@.take(done.len() as int) == done
        &&& forall|k: int|
            0 <= k < failed ==> Resolution::begun(#[trigger] pending[k]) == Resolution::Finished(
                self.results@[done.len() + k],
            )
        &&& match self.current {
            Some(c) => failed < pending.len() && c == Resolution::begun(pending[failed])
                && self.pending@ == pending.skip(failed + 1),
            None => failed == pending.len() && self.pending@.len() == 0,
        }
    }

    /// Begins the resolution of the given entries, in their order, with the
    /// fixed defaults for maintainer and platforms.
    pub fn new(specs: Vec<PackageSpec>) -> (r: Self)
        ensures
            r.wf(),
            r.total == specs@.len(),
            r.settles(specs@, Seq::empty()),
    {
        let total = specs.len();
        let mut resolver = Resolver {
            pending: specs,
            results: Vec::new(),
            current: None,
            total,
            defaults: MetaDefaults::default(),
        };
        resolver.settle();
        resolver
    }

    /// Gives the resolver its configuration: the maintainer and the
    /// platforms of every package that it records from now on.
    pub fn with_defaults(self, defaults: MetaDefaults) -> (r: Self)
        ensures
            r.defaults == defaults,
            r.pending == self.pending,
            r.results == self.results,
            r.current == self.current,
            r.total == self.total,
    {
        Resolver {
            pending: self.pending,
            results: self.results,
            current: self.current,
            total: self.total,
            defaults,
        }
    }

    /// Begins the next entry that does not fail at once.
    fn settle(&mut self)
        requires
            old(self).current is None,
            old(self).results@.len() + old(self).pending@.len() == old(self).total,
        ensures
            final(self).wf(),
            final(self).total == old(self).total,
            final(self).defaults == old(self).defaults,
            final(self).settles(old(self).pending@, old(self).results@),
            final(self).remaining() <= old(self).pending@.len() * 6,
            final(self).remaining() < old(self).pending@.len() * 6 || final(self).done(),
    {
        let ghost pending = self.pending@;
        let ghost done = self.results@;
        proof {
            assert(self.results@.take(done.len() as int) =~= done);
            assert(self.pending@ =~= pending.skip(0));
        }
        while self.pending.len() > 0
            invariant
                self.current is None,
                self.total == old(self).total,
                self.defaults == old(self).defaults,
                self.results@.len() + self.pending@.len() == self.total,
                done.len() + pending.len() == self.total,
                done.len() <= self.results@.len(),
                self.results@.take(done.len() as int) == done,
                self.pending@ == pending.skip(self.results@.len() - done.len()),
                forall|k: int|
                    0 <= k < self.results@.len() - done.len() ==> Resolution::begun(
                        #[trigger] pending[k],
                    ) == Resolution::Finished(self.results@[done.len() + k]),
                pending == old(self).pending@,
                done == old(self).results@,
            decreases self.pending@.len(),
        {
            let ghost failed = self.results@.len() - done.len();
            let spec = self.pending.remove(0);
            proof {
                assert(spec == pending[failed]);
                assert(self.pending@ =~= pending.skip(failed + 1));
            }
            match Resolution::start(spec) {
                Resolution::Finished(result) => {
                    self.results.push(result);
                    proof {
                        assert(self.results@.take(done.len() as int) =~= done);
                    }
                },
                waiting => {
                    self.current = Some(waiting);
                    return ;
                },
            }
        }
    }

    /// Whether the resolver is in a state that `new` and `handle` lead to.
    pub fn well_formed(&self) -> (r: bool)
        ensures
            r == self.wf(),
    {
        match &self.current {
            Some(c) => c.is_waiting() && self.total >= 1 && self.results.len() <= self.total - 1
                && self.pending.len() == self.total - 1 - self.results.len(),
            None => self.pending.len() == 0 && self.results.len() == self.total,
        }
    }

    /// Whether every entry has its result.
    pub fn is_done(&self) -> (r: bool)
        ensures
            r == self.done(),
    {
        self.current.is_none()
    }

    /// What is needed next from the outside world: the request of the
    /// resolution under way, or nothing once every entry has its result.
    pub fn action(&self) -> (action: Action)
        ensures
            match self.current {
                Some(c) => c.plans(action),
                None => action == Action::Nothing,
            },
            self.wf() && !self.done() ==> action != Action::Nothing,
    {
        match &self.current {
            Some(c) => c.action(),
            None => Action::Nothing,
        }
    }

    /// Takes an answer from the outside world. The resolution under way
    /// moves on; where it ends, its result is recorded, in a descriptor with
    /// the configured maintainer and platforms or in an error, and the next
    /// entry is begun. The results recorded before stay as they are.
    pub fn handle(&mut self, event: Event)
        requires
            old(self).wf(),
        ensures
            final(self).wf(),
            final(self).total == old(self).total,
            final(self).defaults == old(self).defaults,
            match old(self).current {
                Some(c) => exists|next: Resolution|
                    c.advances(event, next) && match next {
                        Resolution::Finished(outcome) => final(self).results@.len() > old(
                            self,
                        ).results@.len() && old(self).records(
                            outcome,
                            final(self).results@[old(self).results@.len() as int],
                        ) && final(self).settles(
                            old(self).pending@,
                            old(self).results@.push(
                                final(self).results@[old(self).results@.len() as int],
                            ),
                        ),
                        _ => final(self).current == Some(next) && final(self).pending == old(
                            self,
                        ).pending && final(self).results == old(self).results,
                    },
                None => *final(self) == *old(self),
            },
            final(self).results@.len() >= old(self).results@.len(),
            final(self).results@.take(old(self).results@.len() as int) == old(self).results@,
            !old(self).done() ==> final(self).remaining() < old(self).remaining(),
    {
        proof {
            assert(self.results@.take(self.results@.len() as int) =~= self.results@);
        }
        let mut current: Option<Resolution> = None;
        core::mem::swap(&mut self.current, &mut current);
        match current {
            None => {},
            Some(c) => {
                let next = c.advance(event);
                match next {
                    Resolution::Finished(outcome) => {
                        let ghost before = self.results@;
                        let recorded = match outcome {
                            Ok(package) => Ok(package.with_defaults(&self.defaults)),
                            Err(e) => Err(e),
                        };
                        self.results.push(recorded);
                        self.settle();
                        proof {
                            assert(c.advances(event, Resolution::Finished(outcome)));
                            assert(self.results@.take(before.len() as int) =~= self.results@.take(
                                before.len() as int + 1,
                            ).take(before.len() as int));
                            assert(before.push(recorded).take(before.len() as int) =~= before);
                            assert(self.results@[before.len() as int] == self.results@.take(
                                before.len() as int + 1,
                            )[before.len() as int]);
                        }
                    },
                    waiting => {
                        self.current = Some(waiting);
                        proof {
                            assert(c.advances(event, waiting));
                        }
                    },
                }
            },
        }
    }

    /// The results, one for each entry, in the order of the entries.
    pub fn into_results(self) -> (r: Vec<Result<NixPackage, ResolveError>>)
        ensures
            r == self.results,
            self.wf() && self.done() ==> r@.len() == self.total,
    {
        self.results
    }

    /// Once every entry has its result there are as many results as
    /// entries: no entry is dropped, whatever failed before it.
    pub proof fn lemma_one_result_per_entry(self)
        requires
            self.wf(),
        ensures
            self.results@.len() <= self.total,
            self.done() <==> self.results@.len() == self.total,
            self.done() <==> self.remaining() == 0,
    {
    }
}

/// The long description that the reply to a request for a README gives.
fn readme_of(reply: Reply<String>) -> (r: String)
    ensures
        r@ == readme_text(reply),
{
    match get_long_description(reply) {
        Ok(text) => text,
        Err(_) => String::new(),
    }
}

/// The state of a marketplace extension once its README is dealt with.
fn gallery_after_readme(
    name: String,
    extension: VSMarketPlaceExtensionRefined,
    links: ManifestLinks,
    long_description: String,
) -> (next: Resolution)
    ensures
        after_readme(name, extension, links, long_description@, next),
        next is GalleryLicense || next is GalleryArchive,
        next.waits(),
{
    if links.repository().is_some() {
        Resolution::GalleryLicense { name, extension, links, long_description }
    } else {
        Resolution::GalleryArchive { name, extension, links, long_description, license: None }
    }
}

} // verus!
