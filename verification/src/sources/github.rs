//! The GitHub API: the requests that ask it for a repository and for a
//! repository's license, and the license that its answer names.

use super::{accept, accepted, header_pairs, Header, Reply, Request};
use crate::error::ResolveError;
use crate::nix::package::{default_meta, MetaModel, PackageModel};
use crate::nix::{NixLicense, NixPackage, NixPackageMeta};
use crate::package::github::{GitHubLatest, GitHubPin, TomlGitHubPackage};
use crate::text::{opt_text, present, some_if_present, split_in_two, two_parts};
use vstd::prelude::*;

verus! {

/// A repository as the GitHub API describes it.
#[derive(Debug, Clone, Default, PartialEq, Eq)]
pub struct GitHubRepo {
    pub id: u64,
    pub node_id: String,
    pub name: String,
    pub full_name: String,
    pub private: bool,
    pub owner: GitHubOwner,
    pub html_url: String,
    pub description: Option<String>,
    pub fork: bool,
    pub url: String,
    pub forks_url: String,
    pub keys_url: String,
    pub collaborators_url: String,
    pub teams_url: String,
    pub hooks_url: String,
    pub issue_events_url: String,
    pub events_url: String,
    pub assignees_url: String,
    pub branches_url: String,
    pub tags_url: String,
    pub blobs_url: String,
    pub git_tags_url: String,
    pub git_refs_url: String,
    pub trees_url: String,
    pub statuses_url: String,
    pub languages_url: String,
    pub stargazers_url: String,
    pub contributors_url: String,
    pub subscribers_url: String,
    pub subscription_url: String,
    pub commits_url: String,
    pub git_commits_url: String,
    pub comments_url: String,
    pub issue_comment_url: String,
    pub contents_url: String,
    pub compare_url: String,
    pub merges_url: String,
    pub archive_url: String,
    pub downloads_url: String,
    pub issues_url: String,
    pub pulls_url: String,
    pub milestones_url: String,
    pub notifications_url: String,
    pub labels_url: String,
    pub releases_url: String,
    pub deployments_url: String,
    pub created_at: String,
    pub updated_at: String,
    pub pushed_at: String,
    pub git_url: String,
    pub ssh_url: String,
    pub clone_url: String,
    pub svn_url: String,
    pub homepage: Option<String>,
    pub size: u64,
    pub stargazers_count: u64,
    pub watchers_count: u64,
    pub language: Option<String>,
    pub has_issues: bool,
    pub has_projects: bool,
    pub has_downloads: bool,
    pub has_wiki: bool,
    pub has_pages: bool,
    pub forks_count: u64,
    pub mirror_url: Option<bool>,
    pub archived: bool,
    pub disabled: bool,
    pub open_issues_count: u64,
    pub license: GitHubLicense,
    pub forks: u64,
    pub open_issues: u64,
    pub watchers: u64,
    pub default_branch: String,
    pub temp_clone_token: Option<String>,
    pub organization: Option<GitHubOrganization>,
    pub network_count: u64,
    pub subscribers_count: u64,
}

/// The owner of a repository.
#[derive(Debug, Clone, Default, PartialEq, Eq)]
pub struct GitHubOwner {
    pub login: String,
    pub id: u64,
    pub node_id: String,
    pub avatar_url: String,
    pub gravatar_id: String,
    pub url: String,
    pub html_url: String,
    pub followers_url: String,
    pub following_url: String,
    pub gists_url: String,
    pub starred_url: String,
    pub subscriptions_url: String,
    pub organizations_url: String,
    pub repos_url: String,
    pub events_url: String,
    pub received_events_url: String,
    pub type_field: String,
    pub site_admin: bool,
}

/// The license that GitHub reports for a repository.
#[derive(Debug, Clone, Default, PartialEq, Eq)]
pub struct GitHubLicense {
    pub key: String,
    pub name: String,
    pub spdx_id: String,
    pub url: String,
    pub node_id: String,
}

/// The organization that a repository belongs to.
#[derive(Debug, Clone, Default, PartialEq, Eq)]
pub struct GitHubOrganization {
    pub login: String,
    pub id: u64,
    pub node_id: String,
    pub avatar_url: String,
    pub gravatar_id: String,
    pub url: String,
    pub html_url: String,
    pub followers_url: String,
    pub following_url: String,
    pub gists_url: String,
    pub starred_url: String,
    pub subscriptions_url: String,
    pub organizations_url: String,
    pub repos_url: String,
    pub events_url: String,
    pub received_events_url: String,
    pub type_field: String,
    pub site_admin: bool,
}

/// The tags of a repository.
#[derive(Debug, Clone, Default, PartialEq, Eq)]
pub struct GitHubTags {
    pub tags: Option<Vec<GitHubTag>>,
}

/// One tag of a repository.
#[derive(Debug, Clone, Default, PartialEq, Eq)]
pub struct GitHubTag {
    pub name: String,
    pub commit: GitHubCommit,
    pub zipball_url: String,
    pub tarball_url: String,
    pub node_id: String,
}

/// A commit, by hash and address.
#[derive(Debug, Clone, Default, PartialEq, Eq)]
pub struct GitHubCommit {
    pub sha: String,
    pub url: String,
}

/// The branches of a repository.
#[derive(Debug, Clone, Default, PartialEq, Eq)]
pub struct GitHubBranches {
    pub tags: Option<Vec<GitHubTag>>,
}

/// One branch of a repository.
#[derive(Debug, Clone, Default, PartialEq, Eq)]
pub struct GitHubBranch {
    pub name: String,
    pub commit: GitHubCommit,
    pub protected: bool,
    pub protection: GitHubProtection,
    pub protection_url: String,
}

/// How a branch is protected.
#[derive(Debug, Clone, Default, PartialEq, Eq)]
pub struct GitHubProtection {
    pub required_status_checks: GitHubRequiredStatusChecks,
}

/// The status checks that a protected branch asks for.
#[derive(Debug, Clone, Default, PartialEq, Eq)]
pub struct GitHubRequiredStatusChecks {
    pub enforcement_level: String,
    pub contexts: Vec<String>,
}

/// The entries of a directory of a repository.
#[derive(Debug, Clone, Default, PartialEq, Eq)]
pub struct GitHubContents {
    pub contents: Vec<GitHubContent>,
}

/// One file or directory of a repository.
#[derive(Debug, Clone, Default, PartialEq, Eq)]
pub struct GitHubContent {
    pub type_type: String,
    pub encoding: String,
    pub size: u64,
    pub name: String,
    pub path: String,
    pub content: String,
    pub sha: String,
    pub url: String,
    pub git_url: String,
    pub html_url: String,
    pub download_url: String,
    pub links: GitHubContentLinks,
}

/// The addresses of one entry.
#[derive(Debug, Clone, Default, PartialEq, Eq)]
pub struct GitHubContentLinks {
    pub git: String,
    pub self_type: String,
    pub html: String,
}

/// The releases of a repository.
#[derive(Debug, Clone, Default, PartialEq, Eq)]
pub struct GitHubReleases {
    pub releases: Vec<GitHubRelease>,
}

/// One release of a repository.
#[derive(Debug, Clone, Default, PartialEq, Eq)]
pub struct GitHubRelease {
    pub url: String,
    pub html_url: String,
    pub assets_url: String,
    pub upload_url: String,
    pub tarball_url: String,
    pub zipball_url: String,
    pub id: u64,
    pub node_id: String,
    pub tag_name: String,
    pub target_commitish: String,
    pub name: String,
    pub body: String,
    pub draft: bool,
    pub prerelease: bool,
    pub created_at: String,
    pub published_at: String,
    pub author: GitHubReleaseAuthor,
    pub assets: Vec<GitHubReleaseAssets>,
}

/// Who made a release.
#[derive(Debug, Clone, Default, PartialEq, Eq)]
pub struct GitHubReleaseAuthor {
    pub login: String,
    pub id: u64,
    pub node_id: String,
    pub avatar_url: String,
    pub gravatar_id: String,
    pub url: String,
    pub html_url: String,
    pub followers_url: String,
    pub following_url: String,
    pub gists_url: String,
    pub starred_url: String,
    pub subscriptions_url: String,
    pub organizations_url: String,
    pub repos_url: String,
    pub events_url: String,
    pub received_events_url: String,
    pub type_type: String,
    pub site_admin: bool,
}

/// One file attached to a release.
#[derive(Debug, Clone, Default, PartialEq, Eq)]
pub struct GitHubReleaseAssets {
    pub url: String,
    pub browser_download_url: String,
    pub id: u64,
    pub node_id: String,
    pub name: String,
    pub label: String,
    pub state: String,
    pub content_type: String,
    pub size: u64,
    pub download_count: u64,
    pub created_at: String,
    pub updated_at: String,
    pub uploader: GitHubReleaseAssetsUploader,
}

/// Who attached a file to a release.
#[derive(Debug, Clone, Default, PartialEq, Eq)]
pub struct GitHubReleaseAssetsUploader {
    pub login: String,
    pub id: u64,
    pub node_id: String,
    pub avatar_url: String,
    pub gravatar_id: String,
    pub url: String,
    pub html_url: String,
    pub followers_url: String,
    pub following_url: String,
    pub gists_url: String,
    pub starred_url: String,
    pub subscriptions_url: String,
    pub organizations_url: String,
    pub repos_url: String,
    pub events_url: String,
    pub received_events_url: String,
    pub type_type: String,
    pub site_admin: bool,
}

/// The owner and the name that `owner/name` consists of: the two parts
/// around its one slash.
pub open spec fn owner_and_name(id: Seq<char>) -> Option<(Seq<char>, Seq<char>)> {
    two_parts(id, '/')
}

/// The address at which the API describes a repository.
pub open spec fn repo_url(owner: Seq<char>, name: Seq<char>) -> Seq<char> {
    "https://api.github.com/repos/"@ + owner + "/"@ + name
}

/// The address at which the API describes the license of a repository.
pub open spec fn license_url(owner: Seq<char>, name: Seq<char>) -> Seq<char> {
    repo_url(owner, name) + "/license"@
}

/// The address from which GitHub serves the archive of a repository at a
/// ref.
pub open spec fn archive_url(full_name: Seq<char>, reference: Seq<char>) -> Seq<char> {
    "https://github.com/"@ + full_name + "/archive/"@ + reference + ".tar.gz"@
}

/// The ref that a manifest entry asks for: the one it is pinned to, else the
/// one it follows, else the default branch of the repository.
pub open spec fn wanted_ref(package: TomlGitHubPackage, default_branch: String) -> String {
    match package {
        TomlGitHubPackage::Simple(_) => default_branch,
        TomlGitHubPackage::Detailed(details) => match details.pin {
            Some(GitHubPin::ToRelease(t)) => t,
            Some(GitHubPin::ToCommit(t)) => t,
            Some(GitHubPin::ToTag(t)) => t,
            None => match details.latest {
                Some(GitHubLatest::FromRelease(t)) => t,
                Some(GitHubLatest::FromBranch(t)) => t,
                None => default_branch,
            },
        },
    }
}

/// The headers that every request to the API carries, as pairs of name and
/// value: the version of the API that is asked for, and who asks.
pub open spec fn api_headers() -> Seq<(Seq<char>, Seq<char>)> {
    seq![("Accept"@, "application/vnd.github.v3+json"@), ("User-Agent"@, "nxpkgr"@)]
}

/// The license that a repository's reported license stands for: the one
/// that its SPDX identifier names or else the one that its name names.
pub open spec fn reported_license(spdx_id: Seq<char>, name: Seq<char>) -> Option<NixLicense> {
    match NixLicense::spec_from_str(spdx_id) {
        Some(l) => Some(l),
        None => NixLicense::spec_from_str(name),
    }
}

fn api_request(url: String) -> (r: Request)
    ensures
        r.url == url,
        header_pairs(r.headers@) == api_headers(),
{
    let mut headers: Vec<Header> = Vec::new();
    headers.push(
        Header { name: "Accept".to_owned(), value: "application/vnd.github.v3+json".to_owned() },
    );
    headers.push(Header { name: "User-Agent".to_owned(), value: "nxpkgr".to_owned() });
    proof {
        assert(header_pairs(headers@) =~= api_headers());
    }
    Request { url, headers }
}

impl GitHubLicense {
    /// The license of the closed set that this reported license stands for,
    /// if it stands for one.
    pub fn nix_license(&self) -> (r: Option<NixLicense>)
        ensures
            r == reported_license(self.spdx_id@, self.name@),
    {
        match NixLicense::from_str(self.spdx_id.as_str()) {
            Some(l) => Some(*l),
            None => match NixLicense::from_str(self.name.as_str()) {
                Some(l) => Some(*l),
                None => None,
            },
        }
    }

    /// The request that asks the API for the license of a repository.
    pub fn request(owner: &str, name: &str) -> (r: Request)
        ensures
            r.url@ == license_url(owner@, name@),
            header_pairs(r.headers@) == api_headers(),
    {
        let mut url = "https://api.github.com/repos/".to_owned();
        url.append(owner);
        url.append("/");
        url.append(name);
        url.append("/license");
        api_request(url)
    }
}

impl GitHubRepo {
    /// The request that asks the API for a repository, named as
    /// `owner/name`. Any other shape of name is refused before anything is
    /// sent.
    pub fn request(github_owner_repo: &str) -> (r: Result<Request, ResolveError>)
        ensures
            match r {
                Ok(request) => owner_and_name(github_owner_repo@) matches Some((owner, name))
                    && request.url@ == repo_url(owner, name) && header_pairs(request.headers@)
                    == api_headers(),
                Err(e) => owner_and_name(github_owner_repo@) is None && e
                    == ResolveError::InvalidIdentifier,
            },
    {
        match split_in_two(github_owner_repo, '/') {
            None => Err(ResolveError::InvalidIdentifier),
            Some((owner, name)) => {
                let mut url = "https://api.github.com/repos/".to_owned();
                url.append(owner.as_str());
                url.append("/");
                url.append(name.as_str());
                Ok(api_request(url))
            },
        }
    }

    /// The ref of this repository that a manifest entry asks for.
    pub fn reference<'a>(&'a self, package: &'a TomlGitHubPackage) -> (r: &'a String)
        ensures
            *r == wanted_ref(*package, self.default_branch),
    {
        match package {
            TomlGitHubPackage::Simple(_) => &self.default_branch,
            TomlGitHubPackage::Detailed(details) => match &details.pin {
                Some(pin) => pin.target(),
                None => match &details.latest {
                    Some(latest) => latest.target(),
                    None => &self.default_branch,
                },
            },
        }
    }

    /// The address of the archive of the repository at a ref.
    pub fn src(&self, reference: &str) -> (r: String)
        ensures
            r@ == archive_url(self.full_name@, reference@),
    {
        let mut url = "https://github.com/".to_owned();
        url.append(self.full_name.as_str());
        url.append("/archive/");
        url.append(reference);
        url.append(".tar.gz");
        url
    }

    /// The metadata of the package that the repository becomes: what the
    /// repository says of itself, empty texts being absent, and its license
    /// where that is a known one.
    pub open spec fn meta_model(self) -> MetaModel {
        MetaModel {
            description: present(opt_text(self.description)),
            homepage: present(opt_text(self.homepage)),
            license: match reported_license(self.license.spdx_id@, self.license.name@) {
                Some(l) => Some(seq![l]),
                None => None,
            },
            ..default_meta()
        }
    }

    /// The metadata of a package never holds an empty text where a value is
    /// absent upstream.
    pub proof fn lemma_meta_normalized(self)
        ensures
            self.meta_model().normalized(),
    {
    }

    /// The package that the repository becomes at a ref, under the manifest
    /// key `name`.
    pub open spec fn package_model(
        self,
        name: Seq<char>,
        reference: Seq<char>,
        sha256: Seq<char>,
    ) -> PackageModel {
        PackageModel {
            name,
            pname: self.name@,
            src: archive_url(self.full_name@, reference),
            version: reference,
            sha256,
            meta: self.meta_model(),
        }
    }

    /// Builds the package descriptor of the repository at a ref. `pname` is
    /// the key under which the manifest lists it; the hash is that of the
    /// archive.
    pub fn to_nixpkg(self, pname: String, reference: String, sha256: String) -> (r: NixPackage)
        ensures
            r@ == self.package_model(pname@, reference@, sha256@),
    {
        let src = self.src(reference.as_str());
        let license = match self.license.nix_license() {
            Some(l) => Some(vec![l]),
            None => None,
        };
        let base = NixPackageMeta::default();
        let meta = NixPackageMeta {
            description: some_if_present(self.description),
            long_description: base.long_description,
            homepage: some_if_present(self.homepage),
            license,
            changelog: base.changelog,
            branch: base.branch,
            download_page: base.download_page,
            priority: base.priority,
            maintainers: base.maintainers,
            platforms: base.platforms,
            tests: base.tests,
            timeout: base.timeout,
            hydra_platforms: base.hydra_platforms,
            broken: base.broken,
            update_walker: base.update_walker,
        };
        proof {
            if let Some(l) = reported_license(self.license.spdx_id@, self.license.name@) {
                assert(meta@.license->0 =~= seq![l]);
            }
        }
        NixPackage { name: pname, pname: self.name, src, version: reference, sha256, meta }
    }

    /// The repository that the API's reply describes.
    pub fn get(reply: Reply<GitHubRepo>) -> (r: Result<GitHubRepo, ResolveError>)
        ensures
            r == accepted(reply),
    {
        accept(reply)
    }
}

} // verus!
