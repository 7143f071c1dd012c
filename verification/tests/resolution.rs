use nxpkgr::error::ResolveError;
use nxpkgr::nix::{MetaDefaults, NixLicense, NixPackage, NixPlatforms};
use nxpkgr::package::{
    DetailedTomlOpenVSXPackage, DetailedTomlVSCodeMarketPlacePackage, PackageSpec, TomlGitHubPackage,
    TomlManifest, TomlOpenVSXPackage, TomlSettings, TomlVSCodeMarketPlacePackage,
};
use nxpkgr::resolve::{Action, Event, Resolution, Resolver};
use nxpkgr::sources::github::{GitHubLicense, GitHubRepo};
use nxpkgr::sources::openvsx::{OpenVSXExtension, OpenVSXExtensionFile, OpenVSXExtensionPublishedBy};
use nxpkgr::sources::vscodemarketplace::{
    AssetTypeMicrosoftVisualStudio, VSMarketPlaceExtension, VSMarketPlaceExtensionPublisher,
    VSMarketPlaceExtensionVersion, VSMarketPlaceExtensionVersionFile,
    VSMarketPlaceQueryResultResponse, VSMarketPlaceQueryResults,
};
use nxpkgr::sources::{HashRun, Reply, ToolRun};

fn extension(namespace: &str, name: &str, version: &str, license: &str) -> OpenVSXExtension {
    let base = format!("https://open-vsx.org/api/{}/{}/{}/file", namespace, name, version);
    OpenVSXExtension {
        files: OpenVSXExtensionFile {
            changelog: format!("{}/CHANGELOG.md", base),
            readme: format!("{}/README.md", base),
            ..Default::default()
        },
        name: String::from(name),
        namespace: String::from(namespace),
        version: String::from(version),
        published_by: OpenVSXExtensionPublishedBy {
            homepage: format!("https://github.com/{}", namespace),
            ..Default::default()
        },
        description: format!("The {} extension", name),
        license: String::from(license),
        ..Default::default()
    }
}

fn ok<T>(body: T) -> Reply<T> {
    Reply::Answered { status: 200, body: Some(body) }
}

fn hash(digest: &str) -> HashRun {
    HashRun::Downloaded {
        status: 200,
        tool: ToolRun::Exited { success: true, stdout: Some(String::from(digest)) },
    }
}

/// An upstream that answers each request from fixed tables: the registry
/// fails with status 500 for the identifiers in `broken`.
fn answer(action: &Action, broken: &[&str]) -> Event {
    match action {
        Action::AskOpenVsx(request) => {
            let path = request.url.trim_start_matches("https://open-vsx.org/api/");
            let parts: Vec<&str> = path.split('/').collect();
            if broken.contains(&parts[1]) {
                Event::OpenVsx(Reply::Answered { status: 500, body: None })
            } else {
                let version = if parts.len() > 2 { parts[2] } else { "1.0.0" };
                Event::OpenVsx(ok(extension(parts[0], parts[1], version, "MIT")))
            }
        }
        Action::AskText(request) => {
            Event::Text(ok(format!("# Readme\n\nServed from {}\n\n## More", request.url)))
        }
        Action::Hash(url) => Event::Hash(hash(&format!("hash-of-{}", url.len()))),
        other => panic!("unexpected action {:?}", other),
    }
}

fn resolve_all(specs: Vec<PackageSpec>, broken: &[&str]) -> Vec<Result<NixPackage, ResolveError>> {
    let wanted = specs.len();
    let mut resolver = Resolver::new(specs);
    assert_eq!(resolver.total, wanted);
    let mut steps = 0;
    while !resolver.is_done() {
        assert!(resolver.well_formed());
        assert_ne!(resolver.action(), Action::Nothing);
        let before = resolver.results.len();
        let event = answer(&resolver.action(), broken);
        resolver.handle(event);
        assert!(resolver.results.len() >= before);
        steps += 1;
        assert!(steps <= 3 * wanted);
    }
    assert!(resolver.well_formed());
    assert_eq!(resolver.action(), Action::Nothing);
    assert_eq!(resolver.results.len(), wanted);
    resolver.into_results()
}

fn openvsx(name: &str, id: &str) -> PackageSpec {
    PackageSpec::OpenVSX { name: String::from(name), package: TomlOpenVSXPackage::Simple(String::from(id)) }
}

#[test]
fn a_manifest_entry_resolves_to_a_package() {
    let results = resolve_all(vec![openvsx("ext", "usernamehw.indent-one-space")], &[]);
    assert_eq!(results.len(), 1);
    let package = results[0].as_ref().unwrap();
    assert_eq!(package.name, "ext");
    assert_eq!(package.pname, "indent-one-space");
    assert!(!package.src.is_empty());
    assert_eq!(
        package.src,
        "https://open-vsx.org/api/usernamehw/indent-one-space/1.0.0/file/usernamehw.indent-one-space-1.0.0.vsix"
    );
    assert_eq!(package.version, "1.0.0");
    assert_eq!(package.meta.license, Some(vec![NixLicense::MIT]));
    assert_eq!(
        package.meta.long_description,
        Some(String::from(
            "Served from https://open-vsx.org/api/usernamehw/indent-one-space/1.0.0/file/README.md"
        ))
    );
    assert_eq!(package.sha256, format!("hash-of-{}", package.src.len()));
}

#[test]
fn one_failing_package_leaves_the_others_alone() {
    let specs = vec![openvsx("first", "a.one"), openvsx("second", "b.two"), openvsx("third", "c.three")];
    let results = resolve_all(specs, &["two"]);
    assert_eq!(results.len(), 3);
    assert_eq!(results[0].as_ref().unwrap().name, "first");
    assert_eq!(results[0].as_ref().unwrap().pname, "one");
    assert_eq!(results[1], Err(ResolveError::UpstreamStatus(500)));
    assert_eq!(results[2].as_ref().unwrap().name, "third");
    assert_eq!(results[2].as_ref().unwrap().pname, "three");
}

#[test]
fn every_package_may_fail() {
    let specs = vec![openvsx("first", "a.one"), openvsx("second", "no-dot"), openvsx("third", "c.three")];
    let results = resolve_all(specs, &["one", "three"]);
    assert_eq!(
        results,
        vec![
            Err(ResolveError::UpstreamStatus(500)),
            Err(ResolveError::InvalidIdentifier),
            Err(ResolveError::UpstreamStatus(500)),
        ]
    );
}

#[test]
fn malformed_identifiers_fail_without_a_request() {
    let specs = vec![openvsx("x", "nodot"), openvsx("y", "a.b.c")];
    let resolver = Resolver::new(specs);
    assert!(resolver.is_done());
    assert_eq!(resolver.action(), Action::Nothing);
    assert_eq!(
        resolver.into_results(),
        vec![Err(ResolveError::InvalidIdentifier), Err(ResolveError::InvalidIdentifier)]
    );
    let github = PackageSpec::GitHub {
        name: String::from("g"),
        package: TomlGitHubPackage::Simple(String::from("GitLab.gitlab-workflow")),
    };
    assert_eq!(Resolution::start(github), Resolution::Finished(Err(ResolveError::InvalidIdentifier)));
}

#[test]
fn nothing_to_resolve_is_done_at_once() {
    let resolver = Resolver::new(Vec::new());
    assert!(resolver.is_done());
    assert_eq!(resolver.total, 0);
    assert!(resolver.into_results().is_empty());
}

#[test]
fn a_pinned_entry_asks_for_its_version() {
    let spec = PackageSpec::OpenVSX {
        name: String::from("gitlab"),
        package: TomlOpenVSXPackage::Detailed(DetailedTomlOpenVSXPackage {
            src: String::from("GitLab.gitlab-workflow"),
            pin: Some(String::from("3.28.1")),
            extract: None,
            overlay: None,
            passthru: None,
        }),
    };
    let resolution = Resolution::start(spec);
    match resolution.action() {
        Action::AskOpenVsx(request) => {
            assert_eq!(request.url, "https://open-vsx.org/api/GitLab/gitlab-workflow/3.28.1")
        }
        other => panic!("unexpected action {:?}", other),
    }
    let results = resolve_all(
        vec![PackageSpec::OpenVSX {
            name: String::from("gitlab"),
            package: TomlOpenVSXPackage::Detailed(DetailedTomlOpenVSXPackage {
                src: String::from("GitLab.gitlab-workflow"),
                pin: Some(String::from("3.28.1")),
                extract: None,
                overlay: None,
                passthru: None,
            }),
        }],
        &[],
    );
    assert_eq!(results[0].as_ref().unwrap().version, "3.28.1");
}

#[test]
fn a_readme_that_cannot_be_had_is_a_gap() {
    let mut resolution = Resolution::start(openvsx("ext", "a.b"));
    resolution = resolution.advance(Event::OpenVsx(ok(extension("a", "b", "1.0.0", "MIT"))));
    assert!(!resolution.is_finished());
    resolution = resolution.advance(Event::Text(Reply::Answered { status: 404, body: None }));
    assert!(!resolution.is_finished());
    resolution = resolution.advance(Event::Hash(hash("abc")));
    match resolution {
        Resolution::Finished(Ok(package)) => {
            assert_eq!(package.meta.long_description, None);
            assert_eq!(package.sha256, "abc");
        }
        other => panic!("unexpected state {:?}", other),
    }
}

#[test]
fn a_hash_that_cannot_be_had_is_a_failure() {
    let mut resolution = Resolution::start(openvsx("ext", "a.b"));
    resolution = resolution.advance(Event::OpenVsx(ok(extension("a", "b", "1.0.0", "MIT"))));
    resolution = resolution.advance(Event::Text(ok(String::from("# T\n\ntext"))));
    resolution = resolution.advance(Event::Hash(HashRun::DownloadFailed));
    assert_eq!(resolution, Resolution::Finished(Err(ResolveError::DownloadFailed)));
    assert!(resolution.is_finished());
    assert_eq!(resolution.action(), Action::Nothing);
}

#[test]
fn an_answer_of_the_wrong_kind_ends_the_resolution() {
    let resolution = Resolution::start(openvsx("ext", "a.b"));
    let next = resolution.advance(Event::Hash(hash("abc")));
    assert_eq!(next, Resolution::Finished(Err(ResolveError::UnexpectedEvent)));
    let still = next.advance(Event::Text(Reply::Unreachable));
    assert_eq!(still, Resolution::Finished(Err(ResolveError::UnexpectedEvent)));
}

fn gallery_answer(with_readme: bool) -> Reply<VSMarketPlaceQueryResultResponse> {
    let mut files = vec![
        VSMarketPlaceExtensionVersionFile {
            asset_type: AssetTypeMicrosoftVisualStudio::ServicesVSIXManifest,
            source: String::from("https://cdn.example/manifest"),
        },
        VSMarketPlaceExtensionVersionFile {
            asset_type: AssetTypeMicrosoftVisualStudio::ServicesVSIXPackage,
            source: String::from("https://cdn.example/package"),
        },
    ];
    if with_readme {
        files.push(VSMarketPlaceExtensionVersionFile {
            asset_type: AssetTypeMicrosoftVisualStudio::ServicesContentDetails,
            source: String::from("https://cdn.example/readme"),
        });
    }
    ok(VSMarketPlaceQueryResultResponse {
        results: vec![VSMarketPlaceQueryResults {
            extensions: vec![VSMarketPlaceExtension {
                publisher: VSMarketPlaceExtensionPublisher {
                    publisher_name: String::from("cometeer"),
                    ..Default::default()
                },
                extension_name: String::from("spacemacs"),
                display_name: String::from("Spacemacs"),
                short_description: Some(String::from("Themes")),
                versions: vec![VSMarketPlaceExtensionVersion {
                    version: String::from("1.1.1"),
                    files,
                    ..Default::default()
                }],
                ..Default::default()
            }],
            paging_token: None,
            result_metadata: vec![],
        }],
    })
}

fn marketplace(name: &str, id: &str) -> PackageSpec {
    PackageSpec::VSCodeMarketPlace {
        name: String::from(name),
        package: TomlVSCodeMarketPlacePackage::Simple(String::from(id)),
    }
}

const MANIFEST: &str = r#"<PackageManifest><Metadata><Properties>
<Property Id="Microsoft.VisualStudio.Services.Links.GitHub" Value="https://github.com/cometeer/spacemacs.git" />
<Property Id="Microsoft.VisualStudio.Services.Links.Learn" Value="https://github.com/cometeer/spacemacs#readme" />
</Properties></Metadata></PackageManifest>"#;

#[test]
fn a_marketplace_extension_is_resolved_in_five_answers() {
    let mut resolution = Resolution::start(marketplace("themes", "cometeer.spacemacs"));
    match resolution.action() {
        Action::AskGallery(query) => {
            assert_eq!(query.payload.filters[0].criteria[1].value, "cometeer.spacemacs")
        }
        other => panic!("unexpected action {:?}", other),
    }
    resolution = resolution.advance(Event::Gallery(gallery_answer(true)));
    match resolution.action() {
        Action::AskText(request) => assert_eq!(request.url, "https://cdn.example/manifest"),
        other => panic!("unexpected action {:?}", other),
    }
    resolution = resolution.advance(Event::Text(ok(String::from(MANIFEST))));
    match resolution.action() {
        Action::AskText(request) => assert_eq!(request.url, "https://cdn.example/readme"),
        other => panic!("unexpected action {:?}", other),
    }
    resolution = resolution.advance(Event::Text(ok(String::from("# Spacemacs\n\nA theme."))));
    match resolution.action() {
        Action::AskLicense(request) => {
            assert_eq!(request.url, "https://api.github.com/repos/cometeer/spacemacs/license")
        }
        other => panic!("unexpected action {:?}", other),
    }
    let license = GitHubLicense {
        spdx_id: String::from("MIT"),
        name: String::from("MIT License"),
        ..Default::default()
    };
    resolution = resolution.advance(Event::License(ok(license)));
    match resolution.action() {
        Action::Hash(url) => assert_eq!(
            url,
            "https://cometeer.gallery.vsassets.io/_apis/public/gallery/publisher/cometeer/extension/spacemacs/1.1.1/assetbyname/Microsoft.VisualStudio.Services.VSIXPackage"
        ),
        other => panic!("unexpected action {:?}", other),
    }
    resolution = resolution.advance(Event::Hash(hash("0abc")));
    match resolution {
        Resolution::Finished(Ok(package)) => {
            assert_eq!(package.name, "themes");
            assert_eq!(package.pname, "spacemacs");
            assert_eq!(package.version, "1.1.1");
            assert_eq!(package.sha256, "0abc");
            assert_eq!(package.meta.description, Some(String::from("Themes")));
            assert_eq!(package.meta.long_description, Some(String::from("A theme.")));
            assert_eq!(
                package.meta.homepage,
                Some(String::from("https://github.com/cometeer/spacemacs#readme"))
            );
            assert_eq!(package.meta.license, Some(vec![NixLicense::MIT]));
            assert_eq!(package.meta.changelog, None);
        }
        other => panic!("unexpected state {:?}", other),
    }
}

#[test]
fn gaps_in_manifest_readme_and_license_leave_fields_absent() {
    let mut resolution = Resolution::start(marketplace("themes", "cometeer.spacemacs"));
    resolution = resolution.advance(Event::Gallery(gallery_answer(false)));
    resolution = resolution.advance(Event::Text(Reply::Answered { status: 500, body: None }));
    match resolution.action() {
        Action::Hash(_) => {}
        other => panic!("unexpected action {:?}", other),
    }
    resolution = resolution.advance(Event::Hash(hash("0abc")));
    match resolution {
        Resolution::Finished(Ok(package)) => {
            assert_eq!(package.meta.long_description, None);
            assert_eq!(package.meta.homepage, None);
            assert_eq!(package.meta.license, None);
            assert_eq!(package.pname, "spacemacs");
        }
        other => panic!("unexpected state {:?}", other),
    }
}

#[test]
fn a_license_that_cannot_be_had_is_a_gap() {
    let mut resolution = Resolution::start(marketplace("themes", "cometeer.spacemacs"));
    resolution = resolution.advance(Event::Gallery(gallery_answer(false)));
    resolution = resolution.advance(Event::Text(ok(String::from(MANIFEST))));
    match resolution.action() {
        Action::AskLicense(_) => {}
        other => panic!("unexpected action {:?}", other),
    }
    resolution = resolution.advance(Event::License(Reply::Answered { status: 404, body: None }));
    resolution = resolution.advance(Event::Hash(hash("0abc")));
    match resolution {
        Resolution::Finished(Ok(package)) => {
            assert_eq!(package.meta.license, None);
            assert_eq!(
                package.meta.homepage,
                Some(String::from("https://github.com/cometeer/spacemacs#readme"))
            );
        }
        other => panic!("unexpected state {:?}", other),
    }
}

#[test]
fn a_missing_package_archive_fails_the_resolution() {
    let mut answer = gallery_answer(true);
    if let Reply::Answered { body: Some(response), .. } = &mut answer {
        response.results[0].extensions[0].versions[0]
            .files
            .retain(|f| f.asset_type != AssetTypeMicrosoftVisualStudio::ServicesVSIXPackage);
    }
    let resolution = Resolution::start(marketplace("themes", "cometeer.spacemacs"));
    let next = resolution.advance(Event::Gallery(answer));
    assert_eq!(next, Resolution::Finished(Err(ResolveError::MissingRequiredAsset)));
}

#[test]
fn a_pinned_marketplace_version_must_exist() {
    let spec = PackageSpec::VSCodeMarketPlace {
        name: String::from("themes"),
        package: TomlVSCodeMarketPlacePackage::Detailed(DetailedTomlVSCodeMarketPlacePackage {
            src: String::from("cometeer.spacemacs"),
            pin: Some(String::from("0.0.1")),
            extract: None,
            overlay: None,
            passthru: None,
        }),
    };
    let next = Resolution::start(spec).advance(Event::Gallery(gallery_answer(true)));
    assert_eq!(next, Resolution::Finished(Err(ResolveError::VersionNotFound)));
}

#[test]
fn a_repository_is_resolved_in_two_answers() {
    let spec = PackageSpec::GitHub {
        name: String::from("widgets"),
        package: TomlGitHubPackage::Simple(String::from("elkowar/eww")),
    };
    let mut resolution = Resolution::start(spec);
    match resolution.action() {
        Action::AskRepository(request) => {
            assert_eq!(request.url, "https://api.github.com/repos/elkowar/eww")
        }
        other => panic!("unexpected action {:?}", other),
    }
    let repo = GitHubRepo {
        name: String::from("eww"),
        full_name: String::from("elkowar/eww"),
        default_branch: String::from("master"),
        license: GitHubLicense { spdx_id: String::from("MIT"), ..Default::default() },
        ..Default::default()
    };
    resolution = resolution.advance(Event::Repository(ok(repo)));
    match resolution.action() {
        Action::Hash(url) => assert_eq!(url, "https://github.com/elkowar/eww/archive/master.tar.gz"),
        other => panic!("unexpected action {:?}", other),
    }
    resolution = resolution.advance(Event::Hash(hash("0h")));
    match resolution {
        Resolution::Finished(Ok(package)) => {
            assert_eq!(package.name, "widgets");
            assert_eq!(package.pname, "eww");
            assert_eq!(package.version, "master");
            assert_eq!(package.meta.license, Some(vec![NixLicense::MIT]));
        }
        other => panic!("unexpected state {:?}", other),
    }
}

#[test]
fn the_manifest_lists_its_packages_table_by_table() {
    let manifest = TomlManifest {
        settings: Some(TomlSettings { create_flake: true, create_overlay: false, create_package: false }),
        github: Some(vec![(String::from("eww"), TomlGitHubPackage::Simple(String::from("elkowar/eww")))]),
        openvsx: Some(vec![
            (String::from("dart"), TomlOpenVSXPackage::Simple(String::from("Dart-Code.dart-code"))),
            (String::from("indent"), TomlOpenVSXPackage::Simple(String::from("usernamehw.indent-one-space"))),
        ]),
        vsmarketplace: None,
    };
    let specs = manifest.clone().specs();
    assert_eq!(specs.len(), 3);
    assert_eq!(
        specs[0],
        PackageSpec::GitHub {
            name: String::from("eww"),
            package: TomlGitHubPackage::Simple(String::from("elkowar/eww"))
        }
    );
    assert_eq!(specs[1], openvsx("dart", "Dart-Code.dart-code"));
    assert_eq!(specs[2], openvsx("indent", "usernamehw.indent-one-space"));

    let resolver = manifest.get_openvsx_nixpkgs().unwrap();
    assert_eq!(resolver.total, 2);
    assert!(!resolver.is_done());
    match resolver.action() {
        Action::AskOpenVsx(request) => {
            assert_eq!(request.url, "https://open-vsx.org/api/Dart-Code/dart-code")
        }
        other => panic!("unexpected action {:?}", other),
    }
}

#[test]
fn a_manifest_without_openvsx_table_has_nothing_to_resolve_there() {
    let manifest = TomlManifest { settings: None, github: None, openvsx: None, vsmarketplace: None };
    assert!(manifest.clone().get_openvsx_nixpkgs().is_none());
    assert!(manifest.specs().is_empty());
}

#[test]
fn the_configured_maintainer_is_in_every_package() {
    let defaults = MetaDefaults {
        maintainers: Some(String::from("someone")),
        platforms: Some(NixPlatforms::Linux),
    };
    let mut resolver =
        Resolver::new(vec![openvsx("first", "a.one"), openvsx("second", "b.two")])
            .with_defaults(defaults.clone());
    assert_eq!(resolver.defaults, defaults);
    assert_eq!(resolver.total, 2);
    while !resolver.is_done() {
        let event = answer(&resolver.action(), &["two"]);
        resolver.handle(event);
    }
    let results = resolver.into_results();
    let package = results[0].as_ref().unwrap();
    assert_eq!(package.meta.maintainers, Some(String::from("someone")));
    assert_eq!(package.meta.platforms, Some(NixPlatforms::Linux));
    assert_eq!(package.pname, "one");
    assert_eq!(package.meta.license, Some(vec![NixLicense::MIT]));
    assert_eq!(results[1], Err(ResolveError::UpstreamStatus(500)));
}

#[test]
fn without_configuration_the_fixed_defaults_stand() {
    let defaults = MetaDefaults::default();
    assert_eq!(defaults.maintainers, Some(String::from("th3whit3wolf")));
    assert_eq!(defaults.platforms, Some(NixPlatforms::NoPlatforms));
    let results = resolve_all(vec![openvsx("ext", "a.b")], &[]);
    let package = results[0].as_ref().unwrap();
    assert_eq!(package.meta.maintainers, Some(String::from("th3whit3wolf")));
    assert_eq!(package.meta.platforms, Some(NixPlatforms::NoPlatforms));
    let none = MetaDefaults { maintainers: None, platforms: None };
    let bare = package.clone().with_defaults(&none);
    assert_eq!(bare.meta.maintainers, None);
    assert_eq!(bare.meta.platforms, None);
    assert_eq!(bare.meta.license, package.meta.license);
    assert_eq!(bare.src, package.src);
}

#[test]
fn a_state_that_lacks_what_its_request_is_made_of_does_not_wait() {
    let waiting = Resolution::start(openvsx("ext", "a.b"));
    assert!(waiting.is_waiting());
    assert_ne!(waiting.action(), Action::Nothing);
    let lacking = Resolution::OpenVsxRegistry {
        name: String::from("ext"),
        package: TomlOpenVSXPackage::Simple(String::from("nodot")),
    };
    assert!(!lacking.is_waiting());
    assert_eq!(lacking.action(), Action::Nothing);
    let ended = Resolution::Finished(Err(ResolveError::NoResults));
    assert!(!ended.is_waiting());
    let built = Resolver {
        pending: Vec::new(),
        results: Vec::new(),
        current: Some(lacking),
        total: 1,
        defaults: MetaDefaults::default(),
    };
    assert!(!built.well_formed());
}

#[test]
fn the_tables_of_a_manifest_list_their_entries_by_key() {
    let table = |keys: &[&str]| -> Option<Vec<(String, TomlOpenVSXPackage)>> {
        Some(
            keys.iter()
                .map(|k| (String::from(*k), TomlOpenVSXPackage::Simple(String::from("a.b"))))
                .collect(),
        )
    };
    let manifest = |keys: &[&str]| TomlManifest {
        settings: None,
        github: None,
        openvsx: table(keys),
        vsmarketplace: None,
    };
    assert!(manifest(&[]).well_formed());
    assert!(manifest(&["dart"]).well_formed());
    assert!(manifest(&["dart", "gitlab", "indent"]).well_formed());
    assert!(manifest(&["a", "ab", "b"]).well_formed());
    assert!(manifest(&["Z", "a"]).well_formed());
    assert!(!manifest(&["gitlab", "dart"]).well_formed());
    assert!(!manifest(&["dart", "dart"]).well_formed());
    assert!(!manifest(&["ab", "a"]).well_formed());
    assert!(!manifest(&["a", "c", "b"]).well_formed());
    let empty = TomlManifest { settings: None, github: None, openvsx: None, vsmarketplace: None };
    assert!(empty.well_formed());
}
