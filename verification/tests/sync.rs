use buddy::ais::assistant::AssistantId;
use buddy::buddy::config::{Config, FileBundle};
use buddy::buddy::sync::{SyncAction, SyncEvent, SyncPhase};
use buddy::buddy::Buddy;

fn bundle(name: &str, dir: &str, ext: &str, globs: &[&str]) -> FileBundle {
    FileBundle {
        bundle_name: name.to_string(),
        src_dir: dir.to_string(),
        dst_ext: ext.to_string(),
        src_globs: globs.iter().map(|g| g.to_string()).collect(),
    }
}

fn buddy(bundles: Vec<FileBundle>) -> Buddy {
    Buddy::new(
        AssistantId::from("asst_42".to_string()),
        Config {
            name: "buddy-01".to_string(),
            model: "gpt".to_string(),
            instructions_file: "instructions.md".to_string(),
            file_bundles: bundles,
        },
    )
}

fn files(paths: &[&str]) -> Vec<String> {
    paths.iter().map(|p| p.to_string()).collect()
}

#[test]
fn the_bundle_file_is_named_after_assistant_and_bundle() {
    let b = buddy(vec![]);
    let name = b.bundle_file_name(&bundle("src", "./code", "md", &["**/*.rs"]));
    assert_eq!(name, "buddy-01-src-bundle-asst_42.md");
    assert_eq!(b.name(), "buddy-01");
    assert_eq!(b.assistant_id().as_str(), "asst_42");
}

#[test]
fn a_sync_begins_by_listing_stale_bundle_files() {
    let sync = buddy(vec![]).upload_files(false);
    match sync.action() {
        SyncAction::ListStale { include_globs, exclude_globs } => {
            assert_eq!(include_globs, files(&["*.rs", "*.md"]));
            assert_eq!(exclude_globs, files(&["*asst_42*"]));
        }
        other => panic!("begins with {:?}", other),
    }
    assert_eq!(sync.phase(), SyncPhase::ListingStale);
}

#[test]
fn a_bundle_is_listed_written_and_uploaded() {
    let sync = buddy(vec![bundle("src", "./code", "md", &["**/*.rs"])]).upload_files(false);
    let (sync, action) = sync.advance(SyncEvent::Listed { files: vec![] });
    match action {
        SyncAction::ListSources { src_dir, include_globs } => {
            assert_eq!(src_dir, "./code");
            assert_eq!(include_globs, files(&["**/*.rs"]));
        }
        other => panic!("went on with {:?}", other),
    }
    let (sync, action) = sync.advance(SyncEvent::Listed { files: files(&["./code/a.rs", "./code/b/c.rs"]) });
    match action {
        SyncAction::WriteBundle { files: sources, file_name } => {
            assert_eq!(sources, files(&["./code/a.rs", "./code/b/c.rs"]));
            assert_eq!(file_name, "buddy-01-src-bundle-asst_42.md");
        }
        other => panic!("went on with {:?}", other),
    }
    let (sync, action) = sync.advance(SyncEvent::Bundled { existed: true });
    match action {
        SyncAction::Upload { file_name, force } => {
            assert_eq!(file_name, "buddy-01-src-bundle-asst_42.md");
            assert!(!force);
        }
        other => panic!("went on with {:?}", other),
    }
    let (sync, action) = sync.advance(SyncEvent::Uploaded { uploaded: true });
    assert!(matches!(action, SyncAction::Finish { num_uploaded: 1 }));
    assert_eq!(sync.num_uploaded(), 1);
    assert_eq!(sync.phase(), SyncPhase::Finished);
}

#[test]
fn a_bundle_without_matching_files_is_passed_over() {
    let sync = buddy(vec![bundle("none", "./code", "md", &["*.xyz"])]).upload_files(false);
    let (sync, _) = sync.advance(SyncEvent::Listed { files: vec![] });
    let (sync, action) = sync.advance(SyncEvent::Listed { files: vec![] });
    assert!(matches!(action, SyncAction::Finish { num_uploaded: 0 }));
    assert_eq!(sync.num_uploaded(), 0);
}

#[test]
fn a_source_directory_that_cannot_be_listed_ends_the_sync() {
    let sync = buddy(vec![bundle("a", "./gone", "md", &["*"]), bundle("b", "./here", "rs", &["*"])])
        .upload_files(false);
    let (sync, action) = sync.advance(SyncEvent::Listed { files: vec![] });
    assert!(matches!(&action, SyncAction::ListSources { src_dir, .. } if src_dir == "./gone"));
    let (sync, action) = sync.advance(SyncEvent::Failed);
    assert!(matches!(action, SyncAction::Abort));
    assert_eq!(sync.phase(), SyncPhase::Failed);
    let (_, action) = sync.advance(SyncEvent::Listed { files: files(&["x"]) });
    assert!(matches!(action, SyncAction::Abort));
}

#[test]
fn a_bundle_file_that_was_not_there_is_uploaded_by_force() {
    let sync = buddy(vec![bundle("src", "./code", "md", &["*"])]).upload_files(false);
    let (sync, _) = sync.advance(SyncEvent::Listed { files: vec![] });
    let (sync, _) = sync.advance(SyncEvent::Listed { files: files(&["x"]) });
    let (_, action) = sync.advance(SyncEvent::Bundled { existed: false });
    assert!(matches!(action, SyncAction::Upload { force: true, .. }));
}

#[test]
fn recreate_uploads_every_bundle_by_force() {
    let sync = buddy(vec![bundle("src", "./code", "md", &["*"])]).upload_files(true);
    let (sync, _) = sync.advance(SyncEvent::Listed { files: vec![] });
    let (sync, _) = sync.advance(SyncEvent::Listed { files: files(&["x"]) });
    let (_, action) = sync.advance(SyncEvent::Bundled { existed: true });
    assert!(matches!(action, SyncAction::Upload { force: true, .. }));
}

#[test]
fn only_sent_bundles_are_counted() {
    let sync = buddy(vec![
        bundle("a", "a", "md", &["*"]),
        bundle("b", "b", "md", &["*"]),
        bundle("c", "c", "md", &["*"]),
    ])
    .upload_files(false);
    let (mut sync, mut action) = sync.advance(SyncEvent::Listed { files: vec![] });
    for sent in [true, false, true] {
        assert!(matches!(action, SyncAction::ListSources { .. }));
        let (s, _) = sync.advance(SyncEvent::Listed { files: files(&["f"]) });
        let (s, _) = s.advance(SyncEvent::Bundled { existed: true });
        let (s, a) = s.advance(SyncEvent::Uploaded { uploaded: sent });
        sync = s;
        action = a;
    }
    assert!(matches!(action, SyncAction::Finish { num_uploaded: 2 }));
}

#[test]
fn stale_bundle_files_are_removed_one_by_one() {
    let sync = buddy(vec![]).upload_files(false);
    let stale = files(&["proj/.buddy/files/b-src-bundle-old.md", "proj/.buddy/files/b-doc-bundle-old.rs"]);
    let (sync, action) = sync.advance(SyncEvent::Listed { files: stale });
    assert!(matches!(&action, SyncAction::RemoveFile { path } if path == "proj/.buddy/files/b-src-bundle-old.md"));
    let (sync, action) = sync.advance(SyncEvent::Removed);
    assert!(matches!(&action, SyncAction::RemoveFile { path } if path == "proj/.buddy/files/b-doc-bundle-old.rs"));
    let (_, action) = sync.advance(SyncEvent::Removed);
    assert!(matches!(action, SyncAction::Finish { num_uploaded: 0 }));
}

#[test]
fn a_file_outside_the_data_directory_is_not_removed() {
    let sync = buddy(vec![bundle("a", "a", "md", &["*"])]).upload_files(false);
    let stale = files(&["proj/.buddy/files/old.md", "proj/src/main.rs"]);
    let (sync, _) = sync.advance(SyncEvent::Listed { files: stale });
    let (sync, action) = sync.advance(SyncEvent::Removed);
    assert!(matches!(&action, SyncAction::Refuse { path } if path == "proj/src/main.rs"));
    assert_eq!(sync.phase(), SyncPhase::Refused);
    let (_, action) = sync.advance(SyncEvent::Removed);
    assert!(matches!(&action, SyncAction::Refuse { path } if path == "proj/src/main.rs"));
}

#[test]
fn a_failed_step_ends_the_sync() {
    let sync = buddy(vec![bundle("a", "a", "md", &["*"])]).upload_files(false);
    let (_, action) = sync.advance(SyncEvent::Failed);
    assert!(matches!(action, SyncAction::Abort));

    let sync = buddy(vec![bundle("a", "a", "md", &["*"])]).upload_files(false);
    let (sync, _) = sync.advance(SyncEvent::Listed { files: vec![] });
    let (sync, _) = sync.advance(SyncEvent::Listed { files: files(&["f"]) });
    let (sync, action) = sync.advance(SyncEvent::Failed);
    assert!(matches!(action, SyncAction::Abort));
    assert_eq!(sync.phase(), SyncPhase::Failed);
}
