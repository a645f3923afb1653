use buddy::ais::assistant::AssistantId;
use buddy::buddy::config::{Config, FileBundle};
use buddy::buddy::sync::{SyncAction, SyncEvent};
use buddy::buddy::Buddy;
use buddy::utils::bundle::{bundle_to_file, SourceFile};
use buddy::utils::walk::{list_files, EntryKind, WalkEntry};

fn entry(path: &str, depth: usize, kind: EntryKind) -> WalkEntry {
    WalkEntry { path: path.to_string(), depth, kind }
}

fn code_tree() -> Vec<WalkEntry> {
    vec![
        entry("./code", 0, EntryKind::Dir),
        entry("./code/a.rs", 1, EntryKind::File),
        entry("./code/b", 1, EntryKind::Dir),
        entry("./code/b/c.rs", 2, EntryKind::File),
    ]
}

fn buddy_with(globs: &[&str]) -> Buddy {
    Buddy::new(
        AssistantId::from("asst_1".to_string()),
        Config {
            name: "buddy".to_string(),
            model: "m".to_string(),
            instructions_file: "i.md".to_string(),
            file_bundles: vec![FileBundle {
                bundle_name: "src".to_string(),
                src_dir: "./code".to_string(),
                dst_ext: "md".to_string(),
                src_globs: globs.iter().map(|g| g.to_string()).collect(),
            }],
        },
    )
}

#[test]
fn a_recursive_bundle_holds_both_files_in_the_order_met() {
    let sync = buddy_with(&["**/*.rs"]).upload_files(false);
    let (sync, action) = sync.advance(SyncEvent::Listed { files: vec![] });
    let listed = match action {
        SyncAction::ListSources { src_dir, include_globs } => {
            assert_eq!(src_dir, "./code");
            list_files(&code_tree(), Some(&include_globs), None).unwrap()
        }
        other => panic!("went on with {:?}", other),
    };
    assert_eq!(listed, vec!["./code/a.rs".to_string(), "./code/b/c.rs".to_string()]);

    let (_, action) = sync.advance(SyncEvent::Listed { files: listed });
    let (files, file_name) = match action {
        SyncAction::WriteBundle { files, file_name } => (files, file_name),
        other => panic!("went on with {:?}", other),
    };
    assert_eq!(file_name, "buddy-src-bundle-asst_1.md");

    let sources: Vec<SourceFile> = files
        .iter()
        .map(|path| SourceFile { path: path.clone(), content: Some(format!("// {}\n", path)) })
        .collect();
    let mut artifact = String::new();
    assert_eq!(bundle_to_file(&sources, &mut artifact), Ok(()));
    assert_eq!(
        artifact,
        "// ==== File Path: ./code/a.rs\n\n// ./code/a.rs\n\n\n\
         // ==== File Path: ./code/b/c.rs\n\n// ./code/b/c.rs\n\n\n"
    );
}

#[test]
fn a_bundle_that_matches_nothing_is_neither_written_nor_uploaded() {
    let sync = buddy_with(&["*.xyz"]).upload_files(false);
    let (sync, action) = sync.advance(SyncEvent::Listed { files: vec![] });
    let listed = match action {
        SyncAction::ListSources { include_globs, .. } => list_files(&code_tree(), Some(&include_globs), None).unwrap(),
        other => panic!("went on with {:?}", other),
    };
    assert!(listed.is_empty());
    let (sync, action) = sync.advance(SyncEvent::Listed { files: listed });
    assert!(matches!(action, SyncAction::Finish { num_uploaded: 0 }));
    assert_eq!(sync.num_uploaded(), 0);
}
