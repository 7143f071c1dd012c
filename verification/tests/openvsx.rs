use nxpkgr::error::ResolveError;
use nxpkgr::nix::{NixLicense, NixPlatforms};
use nxpkgr::sources::openvsx::{
    OpenVSXExtension, OpenVSXExtensionFile, OpenVSXExtensionPublishedBy,
};
use nxpkgr::sources::Reply;

fn indent_one_space() -> OpenVSXExtension {
    let base = "https://open-vsx.org/api/usernamehw/indent-one-space";
    OpenVSXExtension {
        namespace_url: String::from("https://open-vsx.org/api/usernamehw"),
        reviews_url: format!("{}/reviews", base),
        files: OpenVSXExtensionFile {
            changelog: format!("{}/0.2.6/file/CHANGELOG.md", base),
            download: format!("{}/0.2.6/file/usernamehw.indent-one-space-0.2.6.vsix", base),
            readme: format!("{}/0.2.6/file/README.md", base),
            icon: format!("{}/0.2.6/file/icon.png", base),
            manifest: format!("{}/0.2.6/file/package.json", base),
        },
        name: String::from("indent-one-space"),
        namespace: String::from("usernamehw"),
        version: String::from("0.2.6"),
        published_by: OpenVSXExtensionPublishedBy {
            login_name: String::from("usernamehw"),
            full_name: String::from("Alexander"),
            avatar_url: String::from("https://avatars2.githubusercontent.com/u/9638156?v=4"),
            homepage: String::from("https://github.com/usernamehw"),
            provider: String::from("github"),
        },
        verified: true,
        unrelated_publisher: false,
        namespace_access: String::from("restricted"),
        all_versions: vec![
            (String::from("latest"), format!("{}/latest", base)),
            (String::from("0.2.6"), format!("{}/0.2.6", base)),
        ],
        download_count: Some(294),
        review_count: 0,
        version_alias: vec![String::from("latest")],
        timestamp: String::from("2020-06-16T13:41:21.518786Z"),
        preview: false,
        display_name: String::from("Indent one space"),
        description: String::from("Move code to left or right with a distance of one whitespace"),
        engines: vec![(String::from("vscode"), String::from("^1.17.0"))],
        categories: vec![String::from("Other")],
        extension_kind: vec![],
        tags: vec![String::from("indentation"), String::from("indent")],
        license: String::from("MIT"),
        repository: String::from("https://github.com/usernamehw/vscode-indent-one-space"),
        bugs: String::from("https://github.com/usernamehw/vscode-indent-one-space/issues"),
        gallery_color: Some(String::from("#333333")),
        gallery_theme: Some(String::from("dark")),
        dependencies: vec![],
        bundled_extensions: vec![],
    }
}

#[test]
fn the_latest_version_is_asked_for_by_namespace_and_name() {
    let request = OpenVSXExtension::request("usernamehw.indent-one-space").unwrap();
    assert_eq!(request.url, "https://open-vsx.org/api/usernamehw/indent-one-space");
    assert!(request.headers.is_empty());
}

#[test]
fn a_pinned_version_is_asked_for_by_its_number() {
    let request =
        OpenVSXExtension::request_with_version("usernamehw.indent-one-space", "0.2.6").unwrap();
    assert_eq!(request.url, "https://open-vsx.org/api/usernamehw/indent-one-space/0.2.6");
    assert!(request.headers.is_empty());
}

#[test]
fn an_identifier_needs_exactly_one_dot() {
    assert_eq!(OpenVSXExtension::request("nodot"), Err(ResolveError::InvalidIdentifier));
    assert_eq!(OpenVSXExtension::request(""), Err(ResolveError::InvalidIdentifier));
    assert_eq!(OpenVSXExtension::request("a.b.c"), Err(ResolveError::InvalidIdentifier));
    assert_eq!(
        OpenVSXExtension::request_with_version("a.b.c", "1.0"),
        Err(ResolveError::InvalidIdentifier)
    );
    assert_eq!(
        OpenVSXExtension::request_with_version("ab", "1.0"),
        Err(ResolveError::InvalidIdentifier)
    );
    assert_eq!(OpenVSXExtension::request("a.b").unwrap().url, "https://open-vsx.org/api/a/b");
}

#[test]
fn the_reply_of_the_registry_is_the_extension() {
    let reply = Reply::Answered { status: 200, body: Some(indent_one_space()) };
    assert_eq!(OpenVSXExtension::get(reply), Ok(indent_one_space()));
}

#[test]
fn a_failing_registry_is_an_error() {
    let reply = Reply::Answered { status: 500, body: Some(indent_one_space()) };
    assert_eq!(OpenVSXExtension::get(reply), Err(ResolveError::UpstreamStatus(500)));
    let reply = Reply::Answered { status: 200, body: None };
    assert_eq!(OpenVSXExtension::get(reply), Err(ResolveError::UnparsableResponse));
    assert_eq!(OpenVSXExtension::get(Reply::Unreachable), Err(ResolveError::Unreachable));
}

#[test]
fn the_archive_is_served_under_namespace_name_and_version() {
    assert_eq!(
        indent_one_space().src(),
        "https://open-vsx.org/api/usernamehw/indent-one-space/0.2.6/file/usernamehw.indent-one-space-0.2.6.vsix"
    );
}

#[test]
fn the_package_takes_its_fields_from_the_extension() {
    let package = indent_one_space().to_nixpkg(
        String::from("ext"),
        None,
        String::from("Indent by one space."),
        String::from("0abc"),
    );
    assert_eq!(package.name, "ext");
    assert_eq!(package.pname, "indent-one-space");
    assert_eq!(
        package.src,
        "https://open-vsx.org/api/usernamehw/indent-one-space/0.2.6/file/usernamehw.indent-one-space-0.2.6.vsix"
    );
    assert_eq!(package.version, "0.2.6");
    assert_eq!(package.sha256, "0abc");
    assert_eq!(
        package.meta.description,
        Some(String::from("Move code to left or right with a distance of one whitespace"))
    );
    assert_eq!(package.meta.long_description, Some(String::from("Indent by one space.")));
    assert_eq!(package.meta.homepage, Some(String::from("https://github.com/usernamehw")));
    assert_eq!(package.meta.license, Some(vec![NixLicense::MIT]));
    assert_eq!(
        package.meta.changelog,
        Some(vec![String::from(
            "https://open-vsx.org/api/usernamehw/indent-one-space/0.2.6/file/CHANGELOG.md"
        )])
    );
    assert_eq!(package.meta.maintainers, Some(String::from("th3whit3wolf")));
    assert_eq!(package.meta.platforms, Some(NixPlatforms::NoPlatforms));
    assert_eq!(package.meta.branch, None);
    assert_eq!(package.meta.timeout, None);
}

#[test]
fn empty_texts_from_the_registry_are_absent_in_the_package() {
    let mut extension = indent_one_space();
    extension.description = String::new();
    extension.published_by.homepage = String::new();
    extension.license = String::from("Some custom license");
    let package =
        extension.to_nixpkg(String::from("ext"), None, String::new(), String::from("0abc"));
    assert_eq!(package.meta.description, None);
    assert_eq!(package.meta.long_description, None);
    assert_eq!(package.meta.homepage, None);
    assert_eq!(package.meta.license, None);
}

#[test]
fn test_openvsx_get() {
    let indent_one_space_0_2_6 = indent_one_space();
    let request = OpenVSXExtension::request("usernamehw.indent-one-space").unwrap();
    assert_eq!(request.url, "https://open-vsx.org/api/usernamehw/indent-one-space");
    let actual =
        OpenVSXExtension::get(Reply::Answered { status: 200, body: Some(indent_one_space()) })
            .unwrap();

    assert_eq!(actual.namespace_url, indent_one_space_0_2_6.namespace_url);
    assert_eq!(actual.reviews_url, indent_one_space_0_2_6.reviews_url);
    assert_eq!(actual.name, indent_one_space_0_2_6.name);
    assert_eq!(actual.namespace, indent_one_space_0_2_6.namespace);
    assert_eq!(actual.published_by, indent_one_space_0_2_6.published_by);
    assert_eq!(actual.verified, indent_one_space_0_2_6.verified);
    assert_eq!(actual.unrelated_publisher, indent_one_space_0_2_6.unrelated_publisher);
    assert_eq!(actual.namespace_access, indent_one_space_0_2_6.namespace_access);
    assert_eq!(actual.preview, indent_one_space_0_2_6.preview);
    assert_eq!(actual.display_name, indent_one_space_0_2_6.display_name);
    assert_eq!(actual.description, indent_one_space_0_2_6.description);
    assert_eq!(actual.categories, indent_one_space_0_2_6.categories);
    assert_eq!(actual.license, indent_one_space_0_2_6.license);
    assert_eq!(actual.repository, indent_one_space_0_2_6.repository);
    assert_eq!(actual.bugs, indent_one_space_0_2_6.bugs);
    assert_eq!(actual.dependencies, indent_one_space_0_2_6.dependencies);
    assert_eq!(actual.bundled_extensions, indent_one_space_0_2_6.bundled_extensions);
}

#[test]
fn test_openvsx_get_with_version() {
    let indent_one_space_0_2_6 = indent_one_space();
    let request =
        OpenVSXExtension::request_with_version("usernamehw.indent-one-space", "0.2.6").unwrap();
    assert_eq!(request.url, "https://open-vsx.org/api/usernamehw/indent-one-space/0.2.6");
    let actual = OpenVSXExtension::get_with_version(
        Reply::Answered { status: 200, body: Some(indent_one_space()) },
        String::from("0.2.6"),
    )
    .unwrap();

    assert_eq!(actual.namespace_url, indent_one_space_0_2_6.namespace_url);
    assert_eq!(actual.reviews_url, indent_one_space_0_2_6.reviews_url);
    assert_eq!(actual.name, indent_one_space_0_2_6.name);
    assert_eq!(actual.version, indent_one_space_0_2_6.version);
    assert_eq!(actual.namespace, indent_one_space_0_2_6.namespace);
    assert_eq!(actual.published_by, indent_one_space_0_2_6.published_by);
    assert_eq!(actual.verified, indent_one_space_0_2_6.verified);
    assert_eq!(actual.unrelated_publisher, indent_one_space_0_2_6.unrelated_publisher);
    assert_eq!(actual.namespace_access, indent_one_space_0_2_6.namespace_access);
    assert_eq!(actual.preview, indent_one_space_0_2_6.preview);
    assert_eq!(actual.display_name, indent_one_space_0_2_6.display_name);
    assert_eq!(actual.description, indent_one_space_0_2_6.description);
    assert_eq!(actual.categories, indent_one_space_0_2_6.categories);
    assert_eq!(actual.license, indent_one_space_0_2_6.license);
    assert_eq!(actual.repository, indent_one_space_0_2_6.repository);
    assert_eq!(actual.bugs, indent_one_space_0_2_6.bugs);
    assert_eq!(actual.dependencies, indent_one_space_0_2_6.dependencies);
    assert_eq!(actual.bundled_extensions, indent_one_space_0_2_6.bundled_extensions);
}

#[test]
fn a_reply_for_another_version_does_not_hold_the_pinned_one() {
    let reply = Reply::Answered { status: 200, body: Some(indent_one_space()) };
    assert_eq!(
        OpenVSXExtension::get_with_version(reply, String::from("0.2.5")),
        Err(ResolveError::VersionNotFound)
    );
    let reply = Reply::Answered { status: 404, body: None };
    assert_eq!(
        OpenVSXExtension::get_with_version(reply, String::from("0.2.6")),
        Err(ResolveError::UpstreamStatus(404))
    );
    assert_eq!(
        OpenVSXExtension::get_with_version(Reply::Unreachable, String::from("0.2.6")),
        Err(ResolveError::Unreachable)
    );
}
