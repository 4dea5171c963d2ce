use verified_bot_commit::git::{
    blob_content, build_commit_message, get_file_mode, metadata_source, resolve_ref_object,
    FileStat, GitBlob, GitMode, MetadataSource, RefTarget,
};
use verified_bot_commit::refs::normalize_ref;

#[test]
fn test_build_commit_message_inline() {
    let msg = build_commit_message("Some message", "", &Ok(String::new())).unwrap();
    assert_eq!(msg, "Some message");
}

#[test]
fn test_build_commit_message_empty() {
    let result = build_commit_message("", "", &Ok(String::new()));
    assert!(result.is_err());
    assert_eq!(result.unwrap_err(), "Commit message is empty");
}

#[test]
fn test_normalize_ref() {
    assert_eq!(normalize_ref("test"), "heads/test");
    assert_eq!(normalize_ref("heads/test"), "heads/test");
    assert_eq!(normalize_ref("refs/heads/test"), "heads/test");
    assert_eq!(normalize_ref("feat/test"), "heads/feat/test");
    assert_eq!(normalize_ref("heads/feat/test"), "heads/feat/test");
    assert_eq!(normalize_ref("refs/heads/refs"), "heads/refs");
    assert_eq!(normalize_ref("refs/tags/test-tag"), "tags/test-tag");
    assert_eq!(normalize_ref("tags/v1.0"), "tags/v1.0");
}

#[test]
fn normalize_ref_is_idempotent() {
    for r in ["test", "heads/a", "tags/v2", "refs/heads/x", "refs/x", "refs/refs/x", "feat/y", ""] {
        let once = normalize_ref(r);
        assert!(once.starts_with("heads/") || once.starts_with("tags/"));
        assert_eq!(normalize_ref(&once), once);
    }
}

#[test]
fn normalize_ref_other_full_names_are_branches() {
    assert_eq!(normalize_ref("refs/x"), "heads/x");
    assert_eq!(normalize_ref("refs/pull/1"), "heads/pull/1");
    assert_eq!(normalize_ref("refs/refs/x"), "heads/refs/x");
    assert_eq!(normalize_ref(""), "heads/");
}

#[test]
fn build_commit_message_prefers_file() {
    let msg = build_commit_message("inline", "msg.txt", &Ok("from file".to_string())).unwrap();
    assert_eq!(msg, "from file");
}

#[test]
fn build_commit_message_empty_file_is_refused() {
    let r = build_commit_message("inline", "msg.txt", &Ok(String::new()));
    assert_eq!(r.unwrap_err(), "Commit message is empty");
}

#[test]
fn build_commit_message_read_error() {
    let r = build_commit_message("inline", "missing.txt", &Err("No such file".to_string()));
    assert_eq!(r.unwrap_err(), "Failed to read message file: No such file");
}

#[test]
fn build_commit_message_ignores_file_text_without_file() {
    let r = build_commit_message("inline", "", &Err("unused".to_string()));
    assert_eq!(r.unwrap(), "inline");
}

fn stat(is_symlink: bool, is_dir: bool, is_file: bool, unix_mode: Option<u32>) -> FileStat {
    FileStat { is_symlink, is_dir, is_file, unix_mode }
}

#[test]
fn file_modes_from_metadata() {
    let ok = |s: FileStat| get_file_mode("ws/f", &Ok(s)).unwrap();
    assert_eq!(ok(stat(true, false, false, Some(0o777))), GitMode::SymbolicLink);
    assert_eq!(ok(stat(false, true, false, Some(0o755))), GitMode::Directory);
    assert_eq!(ok(stat(false, false, true, Some(0o644))), GitMode::RegularFile);
    assert_eq!(ok(stat(false, false, true, Some(0o744))), GitMode::ExecutableFile);
    assert_eq!(ok(stat(false, false, true, Some(0o601))), GitMode::ExecutableFile);
    assert_eq!(ok(stat(false, false, true, None)), GitMode::RegularFile);
}

#[test]
fn file_mode_errors() {
    let e = get_file_mode("ws/f", &Err("denied".to_string())).unwrap_err();
    assert_eq!(e, "Failed to stat ws/f: denied");
    let e = get_file_mode("ws/fifo", &Ok(stat(false, false, false, Some(0o644)))).unwrap_err();
    assert_eq!(e, "Unknown file mode for ws/fifo");
}

#[test]
fn mode_strings() {
    assert_eq!(GitMode::RegularFile.to_string(), "100644");
    assert_eq!(GitMode::ExecutableFile.to_string(), "100755");
    assert_eq!(GitMode::Directory.to_string(), "040000");
    assert_eq!(GitMode::SymbolicLink.to_string(), "120000");
}

#[test]
fn blob_is_of_type_blob() {
    let b = GitBlob::new("src/a.rs", GitMode::RegularFile, "abc123".to_string());
    assert_eq!(b.path, "src/a.rs");
    assert_eq!(b.object_type, "blob");
    assert_eq!(b.sha, "abc123");
    assert_eq!(b.mode, GitMode::RegularFile);
}

#[test]
fn blob_content_is_base64() {
    assert_eq!(blob_content("f", &Ok(b"hello".to_vec())).unwrap(), "aGVsbG8=");
    assert_eq!(blob_content("f", &Ok(b"hel".to_vec())).unwrap(), "aGVs");
    assert_eq!(blob_content("f", &Ok(b"hell".to_vec())).unwrap(), "aGVsbA==");
    assert_eq!(blob_content("f", &Ok(Vec::new())).unwrap(), "");
}

#[test]
fn blob_content_read_error() {
    let e = blob_content("ws/a", &Err("gone".to_string())).unwrap_err();
    assert_eq!(e, "Failed to read ws/a: gone");
}

#[test]
fn ref_objects() {
    assert_eq!(resolve_ref_object("commit", "c1").unwrap(), RefTarget::Commit("c1".to_string()));
    assert_eq!(resolve_ref_object("tag", "t1").unwrap(), RefTarget::Tag("t1".to_string()));
    assert_eq!(resolve_ref_object("tree", "x").unwrap_err(), "Unsupported ref type: tree");
}

#[test]
fn following_symlinks_reads_the_target() {
    assert_eq!(metadata_source(true), MetadataSource::Target);
    assert_eq!(metadata_source(false), MetadataSource::Path);
}
