use buddy::error::BuddyError;
use buddy::utils::globs::get_glob_set;
use buddy::utils::walk::{
    base_dir_exclude_globs, entry_kept, has_recursive_marker, list_files, walk_depth, EntryKind, FileFilter, WalkEntry,
};

fn entry(path: &str, depth: usize, kind: EntryKind) -> WalkEntry {
    WalkEntry { path: path.to_string(), depth, kind }
}

fn globs(patterns: &[&str]) -> Vec<String> {
    patterns.iter().map(|p| p.to_string()).collect()
}

fn code_tree() -> Vec<WalkEntry> {
    vec![
        entry("./code", 0, EntryKind::Dir),
        entry("./code/a.rs", 1, EntryKind::File),
        entry("./code/b", 1, EntryKind::Dir),
        entry("./code/b/c.rs", 2, EntryKind::File),
        entry("./code/readme.md", 1, EntryKind::File),
    ]
}

#[test]
fn a_recursive_glob_finds_files_at_any_depth() {
    let listed = list_files(&code_tree(), Some(&globs(&["**/*.rs"])), None);
    assert_eq!(listed, Ok(vec!["./code/a.rs".to_string(), "./code/b/c.rs".to_string()]));
}

#[test]
fn a_flat_glob_stays_at_the_top() {
    let listed = list_files(&code_tree(), Some(&globs(&["*.rs"])), None);
    assert_eq!(listed, Ok(vec!["./code/a.rs".to_string()]));
}

#[test]
fn without_inclusions_every_top_file_is_listed() {
    let listed = list_files(&code_tree(), None, None);
    assert_eq!(listed, Ok(vec!["./code/a.rs".to_string(), "./code/readme.md".to_string()]));
}

#[test]
fn exclusion_comes_before_inclusion() {
    let listed = list_files(&code_tree(), Some(&globs(&["**/*.rs", "**/*.md"])), Some(&globs(&["**/a.rs"])));
    assert_eq!(listed, Ok(vec!["./code/b/c.rs".to_string(), "./code/readme.md".to_string()]));
}

#[test]
fn built_in_exclusions_prune_whole_directories() {
    let tree = vec![
        entry(".", 0, EntryKind::Dir),
        entry("./.git", 1, EntryKind::Dir),
        entry("./.git/hooks", 2, EntryKind::Dir),
        entry("./.git/hooks/pre.rs", 3, EntryKind::File),
        entry("./.git/config.rs", 2, EntryKind::File),
        entry("./src", 1, EntryKind::Dir),
        entry("./src/main.rs", 2, EntryKind::File),
        entry("./target", 1, EntryKind::Dir),
        entry("./target/debug", 2, EntryKind::Dir),
        entry("./target/debug/build.rs", 3, EntryKind::File),
        entry("./zz.rs", 1, EntryKind::File),
    ];
    let listed = list_files(&tree, Some(&globs(&["**/*.rs"])), None);
    assert_eq!(listed, Ok(vec!["./src/main.rs".to_string(), "./zz.rs".to_string()]));
}

#[test]
fn a_directory_after_a_pruned_one_is_entered_again() {
    let tree = vec![
        entry("r", 0, EntryKind::Dir),
        entry("r/a", 1, EntryKind::Dir),
        entry("r/a/target", 2, EntryKind::Dir),
        entry("r/a/target/x.rs", 3, EntryKind::File),
        entry("r/a/y.rs", 2, EntryKind::File),
        entry("r/b", 1, EntryKind::Dir),
        entry("r/b/z.rs", 2, EntryKind::File),
    ];
    let listed = list_files(&tree, Some(&globs(&["**/*.rs"])), None);
    assert_eq!(listed, Ok(vec!["r/a/y.rs".to_string(), "r/b/z.rs".to_string()]));
}

#[test]
fn secret_files_are_never_listed() {
    let tree = vec![
        entry("r", 0, EntryKind::Dir),
        entry("r/.env", 1, EntryKind::File),
        entry("r/.env.sample", 1, EntryKind::File),
        entry("r/notes", 1, EntryKind::File),
    ];
    assert_eq!(list_files(&tree, None, None), Ok(vec!["r/notes".to_string()]));
    assert_eq!(list_files(&tree, Some(&globs(&["**/*"])), None), Ok(vec!["r/notes".to_string()]));
}

#[test]
fn only_regular_files_are_listed() {
    let tree = vec![
        entry("r", 0, EntryKind::Dir),
        entry("r/link.rs", 1, EntryKind::Other),
        entry("r/dir.rs", 1, EntryKind::Dir),
        entry("r/dir.rs/in.rs", 2, EntryKind::File),
        entry("r/file.rs", 1, EntryKind::File),
    ];
    let listed = list_files(&tree, Some(&globs(&["**/*.rs"])), None);
    assert_eq!(listed, Ok(vec!["r/dir.rs/in.rs".to_string(), "r/file.rs".to_string()]));
}

#[test]
fn a_root_that_is_excluded_gives_nothing() {
    let tree = vec![entry("x/target", 0, EntryKind::Dir), entry("x/target/a.rs", 1, EntryKind::File)];
    assert_eq!(list_files(&tree, Some(&globs(&["**/*.rs"])), None), Ok(vec![]));
}

#[test]
fn no_match_gives_an_empty_listing() {
    assert_eq!(list_files(&code_tree(), Some(&globs(&["*.xyz"])), None), Ok(vec![]));
    assert_eq!(list_files(&vec![], Some(&globs(&["**/*"])), None), Ok(vec![]));
}

#[test]
fn a_pattern_that_does_not_parse_is_named() {
    let listed = list_files(&code_tree(), Some(&globs(&["*.rs", "a[b", "{c"])), None);
    assert_eq!(listed, Err(BuddyError::InvalidPattern { pattern: "a[b".to_string() }));
    let listed = list_files(&code_tree(), Some(&globs(&["*.rs"])), Some(&globs(&["{open"])));
    assert_eq!(listed, Err(BuddyError::InvalidPattern { pattern: "{open".to_string() }));
    let listed = list_files(&code_tree(), Some(&globs(&["[z-a]"])), Some(&globs(&["{open"])));
    assert_eq!(listed, Err(BuddyError::InvalidPattern { pattern: "[z-a]".to_string() }));
}

#[test]
fn a_glob_set_matches_what_any_of_its_patterns_matches() {
    let filter = FileFilter::new(Some(&globs(&["*.rs", "docs/*.md"])), Some(&globs(&["*secret*"]))).unwrap();
    assert!(filter.accepts(EntryKind::File, "main.rs"));
    assert!(filter.accepts(EntryKind::File, "docs/guide.md"));
    assert!(!filter.accepts(EntryKind::File, "guide.md"));
    assert!(!filter.accepts(EntryKind::File, "secret.rs"));
    assert!(filter.accepts(EntryKind::Dir, "secret"));
    assert!(!filter.accepts(EntryKind::Dir, "a/.git"));
    assert!(!filter.accepts(EntryKind::Dir, "target"));
    assert!(filter.accepts(EntryKind::Dir, "targets"));
    assert_eq!(filter.max_depth(), 1);
}

#[test]
fn glob_sets_are_built_or_refused() {
    assert!(get_glob_set(&globs(&["*.rs", "**/x"])).is_ok());
    assert!(get_glob_set(&vec![]).is_ok());
    let refused = get_glob_set(&globs(&["ok", "[bad", "[worse"]));
    assert_eq!(refused.err(), Some(BuddyError::InvalidPattern { pattern: "[bad".to_string() }));
}

#[test]
fn two_stars_in_a_row_mark_a_recursive_pattern() {
    assert!(has_recursive_marker("**/*.rs"));
    assert!(has_recursive_marker("src/**"));
    assert!(has_recursive_marker("a**b"));
    assert!(!has_recursive_marker("*.rs"));
    assert!(!has_recursive_marker("*/*"));
    assert!(!has_recursive_marker(""));
    assert!(!has_recursive_marker("*"));
}

#[test]
fn depth_follows_the_shape_of_the_patterns() {
    assert_eq!(walk_depth(None), 1);
    assert_eq!(walk_depth(Some(&vec![])), 1);
    assert_eq!(walk_depth(Some(&globs(&["*.rs", "*.md"]))), 1);
    assert_eq!(walk_depth(Some(&globs(&["*.rs", "docs/**/*.md"]))), usize::MAX);
}

#[test]
fn files_beyond_the_depth_are_dropped_even_if_handed_in() {
    let filter = FileFilter::new(Some(&globs(&["*.rs"])), None).unwrap();
    let files = filter.select(&code_tree());
    assert_eq!(files, vec!["./code/a.rs".to_string()]);
    assert!(filter.accepts(EntryKind::File, "./code/b/c.rs"));
}

#[test]
fn patterns_too_large_to_compile_are_refused() {
    let pattern = format!("{}/*x*", "?[a-z]".repeat(100_000));
    assert_eq!(get_glob_set(&vec![pattern.clone()]).err(), Some(BuddyError::PatternSet));
    assert_eq!(list_files(&code_tree(), Some(&vec![pattern]), None), Err(BuddyError::PatternSet));
}

#[test]
fn a_pattern_that_does_not_parse_is_named_before_any_set_is_built() {
    let too_large = format!("{}/*x*", "?[a-z]".repeat(100_000));
    let listed = list_files(&code_tree(), Some(&vec![too_large]), Some(&globs(&["[bad"])));
    assert_eq!(listed, Err(BuddyError::InvalidPattern { pattern: "[bad".to_string() }));
}

#[test]
fn no_patterns_always_compile() {
    assert!(get_glob_set(&vec![]).is_ok());
    assert!(base_dir_exclude_globs().is_ok());
    assert_eq!(list_files(&code_tree(), Some(&vec![]), Some(&vec![])), Ok(vec![]));
    let filter = FileFilter::new(Some(&vec![]), Some(&vec![])).unwrap();
    assert!(!filter.accepts(EntryKind::File, "anything"));
    assert!(filter.accepts(EntryKind::Dir, "anything"));
}

#[test]
fn an_exclusion_that_matches_decides() {
    for included in [None, Some(true), Some(false)] {
        assert!(!entry_kept(EntryKind::File, false, Some(true), included));
        assert!(!entry_kept(EntryKind::File, true, None, included));
        assert!(!entry_kept(EntryKind::Other, true, Some(false), included));
        assert!(!entry_kept(EntryKind::Dir, true, Some(false), included));
        assert!(entry_kept(EntryKind::Dir, false, Some(true), included));
    }
    assert!(entry_kept(EntryKind::File, false, None, None));
    assert!(entry_kept(EntryKind::File, false, Some(false), Some(true)));
    assert!(!entry_kept(EntryKind::File, false, Some(false), Some(false)));
}
