use nxpkgr::error::ResolveError;
use nxpkgr::sources::{artifact_file_name, get_hash, hash_command, HashRun, ToolRun};

fn exited(status: u16, success: bool, stdout: Option<&str>) -> HashRun {
    HashRun::Downloaded {
        status,
        tool: ToolRun::Exited { success, stdout: stdout.map(String::from) },
    }
}

#[test]
fn the_tool_is_asked_for_a_flat_base32_sha256() {
    assert_eq!(
        hash_command("/tmp/nxpkgr123/ext.vsix"),
        vec!["nix-hash", "--flat", "--base32", "--type", "sha256", "/tmp/nxpkgr123/ext.vsix"]
    );
}

#[test]
fn the_digest_is_what_the_tool_printed() {
    let digest = "0mdqa9w1p6cmli6976v4wi0sw9r4p5prkj7lzfd1877wk11c9c73\n";
    assert_eq!(get_hash(exited(200, true, Some(digest))), Ok(String::from(digest)));
    assert_eq!(get_hash(exited(299, true, Some(""))), Ok(String::new()));
}

#[test]
fn equal_runs_give_equal_digests() {
    assert_eq!(get_hash(exited(200, true, Some("abc"))), get_hash(exited(200, true, Some("abc"))));
}

#[test]
fn each_failed_stage_has_its_error() {
    assert_eq!(get_hash(HashRun::StorageFailed), Err(ResolveError::TemporaryStorage));
    assert_eq!(get_hash(HashRun::DownloadFailed), Err(ResolveError::DownloadFailed));
    let missing = HashRun::Downloaded { status: 200, tool: ToolRun::Missing };
    assert_eq!(get_hash(missing), Err(ResolveError::HashToolFailed));
    assert_eq!(get_hash(exited(200, false, Some("abc"))), Err(ResolveError::HashToolFailed));
    assert_eq!(get_hash(exited(200, true, None)), Err(ResolveError::HashToolFailed));
}

#[test]
fn the_artifact_is_stored_under_its_own_name_or_a_fixed_one() {
    assert_eq!(artifact_file_name(Some("a.b-1.0.vsix")), "a.b-1.0.vsix");
    assert_eq!(artifact_file_name(Some("")), "tmp.vsix");
    assert_eq!(artifact_file_name(None), "tmp.vsix");
}

#[test]
fn a_download_that_is_refused_gives_no_digest() {
    assert_eq!(get_hash(exited(404, true, Some("abc"))), Err(ResolveError::UpstreamStatus(404)));
    assert_eq!(get_hash(exited(500, false, None)), Err(ResolveError::UpstreamStatus(500)));
    assert_eq!(get_hash(exited(199, true, Some("abc"))), Err(ResolveError::UpstreamStatus(199)));
    assert_eq!(get_hash(exited(300, true, Some("abc"))), Err(ResolveError::UpstreamStatus(300)));
    let missing = HashRun::Downloaded { status: 503, tool: ToolRun::Missing };
    assert_eq!(get_hash(missing), Err(ResolveError::UpstreamStatus(503)));
}
