use nxpkgr::nix::{NixLicense, NixPackageMeta, NixPlatforms};

#[test]
fn known_identifiers_resolve_and_have_a_reference() {
    let cases = [
        ("MIT", NixLicense::MIT, "lib.licenses.mit"),
        ("Apache-2.0", NixLicense::Apache_2_0, "lib.licenses.asl20"),
        ("Abstyles", NixLicense::Abstyles, "lib.licenses.abstyles"),
        ("ZPL-2.1", NixLicense::ZPL_2_1, "lib.licenses.zpl21"),
        ("AGPL-3.0-or-later", NixLicense::AGPL_3_0_Plus, "lib.licenses.agpl3Plus"),
    ];
    for (id, license, reference) in cases {
        let found = NixLicense::from_str(id);
        assert_eq!(found, Some(&license));
        assert_eq!(found.unwrap().to_nix_meta(), reference);
    }
}

#[test]
fn aliases_resolve_to_one_license() {
    assert_eq!(NixLicense::from_str("GPL-3.0+"), Some(&NixLicense::GPL_3_0_Plus));
    assert_eq!(NixLicense::from_str("GPL-3.0-or-later"), Some(&NixLicense::GPL_3_0_Plus));
    assert_eq!(NixLicense::from_str("LGPL-2.1+"), Some(&NixLicense::LGPL_2_1_Plus));
    assert_eq!(NixLicense::from_str("LGPL-2.1-or-later"), Some(&NixLicense::LGPL_2_1_Plus));
    assert_eq!(NixLicense::from_str("LGPL-3.0+"), Some(&NixLicense::LGPL_3_0_Plus));
    assert_eq!(NixLicense::from_str("LGPL-3.0-or-later"), Some(&NixLicense::LGPL_3_0_Plus));
    assert_eq!(NixLicense::GPL_3_0_Plus.to_nix_meta(), "lib.licenses.gpl3Plus");
}

#[test]
fn the_bare_and_the_or_later_identifier_name_one_license() {
    assert!(NixLicense::from_str("GPL-3.0").is_some());
    assert_eq!(NixLicense::from_str("GPL-3.0"), NixLicense::from_str("GPL-3.0-or-later"));
    assert_eq!(NixLicense::from_str("GPL-3.0"), NixLicense::from_str("GPL-3.0+"));
    assert_eq!(NixLicense::from_str("GPL-3.0"), Some(&NixLicense::GPL_3_0_Plus));
    assert_eq!(NixLicense::from_str("GPL-3.0-only"), Some(&NixLicense::GPL_3_0_Only));
}

#[test]
fn every_reference_names_an_attribute() {
    assert_eq!(NixLicense::from_str("Sleepycat"), Some(&NixLicense::Sleepycat));
    assert_eq!(NixLicense::Sleepycat.to_nix_meta(), "lib.licenses.sleepycat");
    assert_eq!(NixLicense::from_str("TCL"), Some(&NixLicense::TCL));
    assert_eq!(NixLicense::TCL.to_nix_meta(), "lib.licenses.tcltk");
    for id in ["MIT", "Sleepycat", "TCL", "GPL-3.0", "Zlib", "W3C", "0BSD", "ISC"] {
        if let Some(license) = NixLicense::from_str(id) {
            let reference = license.to_nix_meta();
            assert!(reference.starts_with("lib.licenses."));
            assert!(reference.len() > "lib.licenses.".len());
        }
    }
}

#[test]
fn unknown_identifiers_resolve_to_nothing() {
    assert_eq!(NixLicense::from_str("definitely not a license"), None);
    assert_eq!(NixLicense::from_str("x9$kq-unrelated-7731"), None);
    assert_eq!(NixLicense::from_str(""), None);
    assert_eq!(NixLicense::from_str("mit"), None);
    assert_eq!(NixLicense::from_str("MIT "), None);
    assert_eq!(NixLicense::from_str("lib.licenses.mit"), None);
}

#[test]
fn licenses_without_identifier_still_have_a_reference() {
    assert_eq!(NixLicense::UnFree.to_nix_meta(), "lib.licenses.unfree");
    assert_eq!(NixLicense::PublicDomain.to_nix_meta(), "lib.licenses.publicDomain");
    assert_eq!(NixLicense::AMD.to_nix_meta(), "lib.licenses.amd");
}

#[test]
fn platforms_have_a_reference() {
    assert_eq!(NixPlatforms::NoPlatforms.to_nix_meta(), "lib.platforms.none");
    assert_eq!(NixPlatforms::X86_64Linux.to_nix_meta(), "lib.platforms.x86-linux");
    assert_eq!(NixPlatforms::Aarch64Darwin.to_nix_meta(), "lib.platforms.aarch64-darwin");
    assert_eq!(NixPlatforms::All.to_nix_meta(), "lib.platforms.all");
}

#[test]
fn default_metadata_names_maintainer_and_platforms_only() {
    let meta = NixPackageMeta::default();
    assert_eq!(meta.maintainers, Some(String::from("th3whit3wolf")));
    assert_eq!(meta.platforms, Some(NixPlatforms::NoPlatforms));
    assert_eq!(meta.description, None);
    assert_eq!(meta.long_description, None);
    assert_eq!(meta.branch, None);
    assert_eq!(meta.homepage, None);
    assert_eq!(meta.download_page, None);
    assert_eq!(meta.changelog, None);
    assert_eq!(meta.license, None);
    assert_eq!(meta.priority, None);
    assert_eq!(meta.tests, None);
    assert_eq!(meta.timeout, None);
    assert_eq!(meta.hydra_platforms, None);
    assert_eq!(meta.broken, None);
    assert_eq!(meta.update_walker, None);
}
