use nxpkgr::error::ResolveError;
use nxpkgr::package::openvsx::default_overlay;
use nxpkgr::text::text_less;
use nxpkgr::package::{
    DetailedTomlOpenVSXPackage, GitHubLatest, GitHubPin, Overlay, TomlOpenVSXPackage, TomlSettings,
};

#[test]
fn commit_tag_and_release_pins_are_read() {
    assert_eq!(GitHubPin::parse("commit:abcdef"), Ok(GitHubPin::ToCommit(String::from("abcdef"))));
    assert_eq!(GitHubPin::parse("tag:v1.0"), Ok(GitHubPin::ToTag(String::from("v1.0"))));
    assert_eq!(GitHubPin::parse("release:2.3"), Ok(GitHubPin::ToRelease(String::from("2.3"))));
    assert_eq!(
        GitHubPin::parse("commit:13aa00156246eec1043c795a9cd3f09dac6928fa"),
        Ok(GitHubPin::ToCommit(String::from("13aa00156246eec1043c795a9cd3f09dac6928fa")))
    );
}

#[test]
fn other_kinds_of_pin_are_refused() {
    assert_eq!(GitHubPin::parse("bogus:x"), Err(ResolveError::InvalidPin));
    assert_eq!(GitHubPin::parse("branch:main"), Err(ResolveError::InvalidPin));
    assert_eq!(GitHubPin::parse("Commit:abc"), Err(ResolveError::InvalidPin));
    assert_eq!(GitHubPin::parse("commit"), Err(ResolveError::InvalidPin));
    assert_eq!(GitHubPin::parse(""), Err(ResolveError::InvalidPin));
    assert_eq!(GitHubPin::parse(":abc"), Err(ResolveError::InvalidPin));
}

#[test]
fn white_space_around_kind_and_ref_is_dropped() {
    assert_eq!(GitHubPin::parse(" tag : v1.0 "), Ok(GitHubPin::ToTag(String::from("v1.0"))));
    assert_eq!(GitHubPin::parse("\tcommit:\tabc\n"), Ok(GitHubPin::ToCommit(String::from("abc"))));
    assert_eq!(GitHubPin::parse("tag:a b"), Ok(GitHubPin::ToTag(String::from("a b"))));
    assert_eq!(GitHubPin::parse("tag:"), Ok(GitHubPin::ToTag(String::new())));
    assert_eq!(GitHubPin::parse("tag:   "), Ok(GitHubPin::ToTag(String::new())));
    assert_eq!(GitHubPin::parse("t ag:x"), Err(ResolveError::InvalidPin));
}

#[test]
fn only_the_first_colon_separates() {
    assert_eq!(GitHubPin::parse("tag:a:b"), Ok(GitHubPin::ToTag(String::from("a:b"))));
    assert_eq!(
        GitHubLatest::parse("branch:feature:x"),
        Ok(GitHubLatest::FromBranch(String::from("feature:x")))
    );
}

#[test]
fn latest_follows_a_branch_or_a_release() {
    assert_eq!(GitHubLatest::parse("branch:main"), Ok(GitHubLatest::FromBranch(String::from("main"))));
    assert_eq!(
        GitHubLatest::parse(" release : stable "),
        Ok(GitHubLatest::FromRelease(String::from("stable")))
    );
    assert_eq!(GitHubLatest::parse("tag:v1"), Err(ResolveError::InvalidPin));
    assert_eq!(GitHubLatest::parse("main"), Err(ResolveError::InvalidPin));
}

#[test]
fn the_ref_of_a_pin_is_its_target() {
    assert_eq!(GitHubPin::ToCommit(String::from("abc")).target(), "abc");
    assert_eq!(GitHubPin::ToTag(String::from("v1")).target(), "v1");
    assert_eq!(GitHubPin::ToRelease(String::from("r")).target(), "r");
    assert_eq!(GitHubLatest::FromBranch(String::from("main")).target(), "main");
    assert_eq!(GitHubLatest::FromRelease(String::from("x")).target(), "x");
}

#[test]
fn an_entry_without_overlay_belongs_to_the_editor() {
    assert_eq!(default_overlay(), Some(Overlay::VSCode));
    assert_eq!(nxpkgr::package::vsmarketplace::default_overlay(), Some(Overlay::VSCode));
}

#[test]
fn settings_are_off_unless_named() {
    let settings = TomlSettings::default();
    assert!(!settings.create_flake);
    assert!(!settings.create_overlay);
    assert!(!settings.create_package);
}

#[test]
fn entries_give_identifier_and_pin() {
    let simple = TomlOpenVSXPackage::Simple(String::from("Dart-Code.dart-code"));
    assert_eq!(simple.unique_id(), "Dart-Code.dart-code");
    assert_eq!(simple.pin(), &None);
    let detailed = TomlOpenVSXPackage::Detailed(DetailedTomlOpenVSXPackage {
        src: String::from("GitLab.gitlab-workflow"),
        pin: Some(String::from("3.28.1")),
        extract: None,
        overlay: default_overlay(),
        passthru: Some(vec![(String::from("license"), String::from("mit"))]),
    });
    assert_eq!(detailed.unique_id(), "GitLab.gitlab-workflow");
    assert_eq!(detailed.pin(), &Some(String::from("3.28.1")));
    assert_eq!(
        detailed.into_parts(),
        (String::from("GitLab.gitlab-workflow"), Some(String::from("3.28.1")), None)
    );
}

#[test]
fn texts_are_ordered_as_strings_are() {
    let samples = ["", "a", "ab", "b", "B", "dart", "gitlab", "z\u{e9}", "z\u{1F600}", "\u{e9}"];
    for a in samples {
        for b in samples {
            assert_eq!(text_less(a, b), a < b, "{:?} {:?}", a, b);
        }
    }
}

#[test]
fn unicode_white_space_is_trimmed_and_nothing_else() {
    assert_eq!(
        GitHubPin::parse("\u{2003}tag\u{a0}:\u{3000}v1\u{85}"),
        Ok(GitHubPin::ToTag(String::from("v1")))
    );
    assert_eq!(
        GitHubPin::parse("tag:\u{200b}v1"),
        Ok(GitHubPin::ToTag(String::from("\u{200b}v1")))
    );
    assert_eq!(GitHubPin::parse("\u{200b}tag:v1"), Err(ResolveError::InvalidPin));
}
