use nxpkgr::error::ResolveError;
use nxpkgr::nix::NixLicense;
use nxpkgr::package::{DetailedTomlGitHubPackage, GitHubLatest, GitHubPin, TomlGitHubPackage};
use nxpkgr::sources::github::{GitHubLicense, GitHubRepo};
use nxpkgr::sources::Reply;

fn eww() -> GitHubRepo {
    GitHubRepo {
        id: 1,
        name: String::from("eww"),
        full_name: String::from("elkowar/eww"),
        description: Some(String::from("ElKowars wacky widgets")),
        homepage: Some(String::new()),
        default_branch: String::from("master"),
        license: GitHubLicense {
            key: String::from("mit"),
            name: String::from("MIT License"),
            spdx_id: String::from("MIT"),
            url: String::from("https://api.github.com/licenses/mit"),
            node_id: String::from("MDc6TGljZW5zZTEz"),
        },
        ..Default::default()
    }
}

fn detailed(pin: Option<GitHubPin>, latest: Option<GitHubLatest>) -> TomlGitHubPackage {
    TomlGitHubPackage::Detailed(DetailedTomlGitHubPackage {
        src: String::from("elkowar/eww"),
        latest,
        pin,
        extract: None,
        passthru: None,
        overlay: None,
    })
}

fn headers(request: &nxpkgr::sources::Request) -> Vec<(&str, &str)> {
    request.headers.iter().map(|h| (h.name.as_str(), h.value.as_str())).collect()
}

#[test]
fn a_repository_is_asked_for_by_owner_and_name() {
    let request = GitHubRepo::request("elkowar/eww").unwrap();
    assert_eq!(request.url, "https://api.github.com/repos/elkowar/eww");
    assert_eq!(
        headers(&request),
        vec![("Accept", "application/vnd.github.v3+json"), ("User-Agent", "nxpkgr")]
    );
}

#[test]
fn a_repository_name_needs_exactly_one_slash() {
    assert_eq!(GitHubRepo::request("eww"), Err(ResolveError::InvalidIdentifier));
    assert_eq!(GitHubRepo::request(""), Err(ResolveError::InvalidIdentifier));
    assert_eq!(GitHubRepo::request("a/b/c"), Err(ResolveError::InvalidIdentifier));
    assert_eq!(GitHubRepo::request("GitLab.gitlab-workflow"), Err(ResolveError::InvalidIdentifier));
    assert!(GitHubRepo::request("Nixos/nixpkgs").is_ok());
}

#[test]
fn the_license_of_a_repository_is_asked_for() {
    let request = GitHubLicense::request("spacejam", "sled");
    assert_eq!(request.url, "https://api.github.com/repos/spacejam/sled/license");
    assert_eq!(
        headers(&request),
        vec![("Accept", "application/vnd.github.v3+json"), ("User-Agent", "nxpkgr")]
    );
}

#[test]
fn the_reported_license_is_looked_up_by_identifier_then_by_name() {
    assert_eq!(eww().license.nix_license(), Some(NixLicense::MIT));
    let by_name = GitHubLicense {
        spdx_id: String::from("NOASSERTION"),
        name: String::from("Zlib"),
        ..Default::default()
    };
    assert_eq!(by_name.nix_license(), Some(NixLicense::Zlib));
    let unknown = GitHubLicense {
        spdx_id: String::from("NOASSERTION"),
        name: String::from("Other"),
        ..Default::default()
    };
    assert_eq!(unknown.nix_license(), None);
    assert_eq!(GitHubLicense::default().nix_license(), None);
}

#[test]
fn the_reply_of_the_api_is_the_repository() {
    assert_eq!(GitHubRepo::get(Reply::Answered { status: 200, body: Some(eww()) }), Ok(eww()));
    assert_eq!(
        GitHubRepo::get(Reply::Answered { status: 403, body: Some(eww()) }),
        Err(ResolveError::UpstreamStatus(403))
    );
    assert_eq!(
        GitHubRepo::get(Reply::Answered { status: 200, body: None }),
        Err(ResolveError::UnparsableResponse)
    );
    assert_eq!(GitHubRepo::get(Reply::Unreachable), Err(ResolveError::Unreachable));
}

#[test]
fn the_wanted_ref_is_pin_then_latest_then_default_branch() {
    let repo = eww();
    let simple = TomlGitHubPackage::Simple(String::from("elkowar/eww"));
    assert_eq!(repo.reference(&simple), "master");
    assert_eq!(repo.reference(&detailed(None, None)), "master");
    let pinned = detailed(
        Some(GitHubPin::ToCommit(String::from("13aa00156246eec1043c795a9cd3f09dac6928fa"))),
        Some(GitHubLatest::FromBranch(String::from("main"))),
    );
    assert_eq!(repo.reference(&pinned), "13aa00156246eec1043c795a9cd3f09dac6928fa");
    let following = detailed(None, Some(GitHubLatest::FromBranch(String::from("main"))));
    assert_eq!(repo.reference(&following), "main");
    let tagged = detailed(Some(GitHubPin::ToTag(String::from("v1.0"))), None);
    assert_eq!(repo.reference(&tagged), "v1.0");
    assert_eq!(simple.repository(), "elkowar/eww");
}

#[test]
fn the_archive_is_served_by_github_at_the_ref() {
    assert_eq!(eww().src("v0.4.0"), "https://github.com/elkowar/eww/archive/v0.4.0.tar.gz");
}

#[test]
fn the_package_takes_its_fields_from_the_repository() {
    let package = eww().to_nixpkg(String::from("widgets"), String::from("v0.4.0"), String::from("0h"));
    assert_eq!(package.name, "widgets");
    assert_eq!(package.pname, "eww");
    assert_eq!(package.src, "https://github.com/elkowar/eww/archive/v0.4.0.tar.gz");
    assert_eq!(package.version, "v0.4.0");
    assert_eq!(package.sha256, "0h");
    assert_eq!(package.meta.description, Some(String::from("ElKowars wacky widgets")));
    assert_eq!(package.meta.homepage, None);
    assert_eq!(package.meta.long_description, None);
    assert_eq!(package.meta.changelog, None);
    assert_eq!(package.meta.license, Some(vec![NixLicense::MIT]));
}
