//! Which entries of a directory tree are the files of a listing.
//!
//! The tree is walked by the caller and handed over as the entries met, in
//! the order met: each directory right before what lies below it.

use vstd::prelude::*;
use crate::error::BuddyError;
use crate::text::texts;
use crate::utils::globs::{
    all_parse, all_portable, blames, build_set, compiled_as, first_unparsed, get_glob_set, glob_parses,
    glob_set_builds, glob_set_is_match, glob_set_matches, glob_set_patterns, lemma_blamed_does_not_parse,
    parse_globs, portable,
};

verus! {

/// What kind of thing a walk met.
#[derive(Debug, Clone, Copy, PartialEq, Eq, Structural)]
pub enum EntryKind {
    /// A directory.
    Dir,
    /// A regular file.
    File,
    /// Anything else, such as a symbolic link.
    Other,
}

/// One entry met on a walk.
#[derive(Debug, Clone)]
pub struct WalkEntry {
    /// Path of the entry, the walk's root included.
    pub path: String,
    /// Number of steps down from the root, which itself is at depth 0.
    pub depth: usize,
    pub kind: EntryKind,
}

/// A [`WalkEntry`] as plain text.
pub struct WalkEntryView {
    pub path: Seq<char>,
    pub depth: usize,
    pub kind: EntryKind,
}

impl View for WalkEntry {
    type V = WalkEntryView;

    open spec fn view(&self) -> WalkEntryView {
        WalkEntryView { path: self.path@, depth: self.depth, kind: self.kind }
    }
}

/// The entries in `entries`, as plain text.
pub open spec fn entry_views(entries: Seq<WalkEntry>) -> Seq<WalkEntryView> {
    entries.map_values(|entry: WalkEntry| entry@)
}

/// Every path in `entries` is [`portable`].
pub open spec fn portable_paths(entries: Seq<WalkEntryView>) -> bool {
    forall|i: int| 0 <= i < entries.len() ==> portable(#[trigger] entries[i].path)
}

/// Whether `pattern` holds the marker for any depth: two stars in a row.
pub open spec fn is_recursive(pattern: Seq<char>) -> bool {
    exists|k: int| 0 <= k && k + 1 < pattern.len() && #[trigger] pattern[k] == '*' && pattern[k + 1] == '*'
}

/// Whether some pattern in `patterns` [`is_recursive`].
pub open spec fn any_recursive(patterns: Seq<Seq<char>>) -> bool {
    exists|i: int| 0 <= i < patterns.len() && is_recursive(#[trigger] patterns[i])
}

/// How deep a walk for the patterns `include_globs` goes: to any depth if
/// one of them is recursive, else no further than the root's own entries.
pub open spec fn depth_for(include_globs: Option<Seq<Seq<char>>>) -> usize {
    match include_globs {
        Some(patterns) => if any_recursive(patterns) {
            usize::MAX
        } else {
            1
        },
        None => 1,
    }
}

/// Whether `pattern` holds two stars in a row.
pub fn has_recursive_marker(pattern: &str) -> (found: bool)
    ensures
        found == is_recursive(pattern@),
{
    let mut found = false;
    let mut after_star = false;
    for c in it: pattern.chars()
        invariant
            it.seq() == pattern@,
            after_star == (it.index() > 0 && pattern@[it.index() - 1] == '*'),
            found == exists|k: int|
                0 <= k && k + 1 < it.index() && #[trigger] pattern@[k] == '*' && pattern@[k + 1] == '*',
    {
        if after_star && c == '*' {
            assert(pattern@[it.index() - 1] == '*' && pattern@[it.index() - 1 + 1] == '*');
            found = true;
        }
        after_star = c == '*';
    }
    found
}

/// The depth to walk to for the patterns `include_globs`.
pub fn walk_depth(include_globs: Option<&Vec<String>>) -> (depth: usize)
    ensures
        depth == depth_for(
            match include_globs {
                Some(globs) => Some(texts(globs@)),
                None => None,
            },
        ),
{
    match include_globs {
        None => 1,
        Some(globs) => {
            let ghost patterns = texts(globs@);
            let mut i: usize = 0;
            while i < globs.len()
                invariant
                    i <= globs.len(),
                    include_globs == Some(globs),
                    patterns == texts(globs@),
                    forall|j: int| 0 <= j < i ==> !is_recursive(#[trigger] patterns[j]),
                decreases globs.len() - i,
            {
                assert(patterns[i as int] == globs[i as int]@);
                if has_recursive_marker(globs[i].as_str()) {
                    assert(any_recursive(patterns));
                    return usize::MAX;
                }
                i += 1;
            }
            1
        },
    }
}

/// The patterns for what no listing descends into or holds: the
/// directories of version control and of build output, and the files that
/// hold secrets.
pub open spec fn base_exclude_patterns() -> Seq<Seq<char>> {
    seq!["**/.git"@, "**/target"@, "**/.env"@, "**/.env.sample"@]
}

/// The built-in patterns hold no backslash.
pub proof fn lemma_base_exclude_portable()
    ensures
        all_portable(base_exclude_patterns()),
{
    reveal_strlit("**/.git");
    reveal_strlit("**/target");
    reveal_strlit("**/.env");
    reveal_strlit("**/.env.sample");
}

/// The built-in patterns, as a list.
fn base_exclude_list() -> (globs: Vec<String>)
    ensures
        texts(globs@) == base_exclude_patterns(),
{
    let mut globs: Vec<String> = Vec::new();
    globs.push("**/.git".to_owned());
    globs.push("**/target".to_owned());
    globs.push("**/.env".to_owned());
    globs.push("**/.env.sample".to_owned());
    assert(texts(globs@) == base_exclude_patterns());
    globs
}

/// The set of [`base_exclude_patterns`]: it is made exactly if globset
/// parses and compiles the four patterns.
pub fn base_dir_exclude_globs() -> (built: Result<globset::GlobSet, BuddyError>)
    ensures
        built matches Ok(set) ==> glob_set_patterns(set) == base_exclude_patterns(),
        compiled_as(base_exclude_patterns(), glob_set_builds(base_exclude_patterns()), built),
        built is Ok <==> all_parse(base_exclude_patterns()) && glob_set_builds(base_exclude_patterns()),
{
    proof {
        lemma_base_exclude_portable();
    }
    get_glob_set(&base_exclude_list())
}

/// The patterns of an optional list, as text.
pub open spec fn optional_texts(globs: Option<&Vec<String>>) -> Option<Seq<Seq<char>>> {
    match globs {
        Some(globs) => Some(texts(globs@)),
        None => None,
    }
}

/// The patterns of an optional list, none counting as an empty list.
pub open spec fn texts_or_none(patterns: Option<Seq<Seq<char>>>) -> Seq<Seq<char>> {
    match patterns {
        Some(patterns) => patterns,
        None => Seq::empty(),
    }
}

/// What decides a listing: the patterns and the depth.
pub struct FileFilter {
    base_exclude: globset::GlobSet,
    include_set: Option<globset::GlobSet>,
    exclude_set: Option<globset::GlobSet>,
    max_depth: usize,
}

/// A [`FileFilter`] as plain text.
pub struct FileFilterView {
    /// Built-in patterns of what is never entered nor listed.
    pub base_exclude: Seq<Seq<char>>,
    /// Patterns a file must match, if any are given.
    pub include_globs: Option<Seq<Seq<char>>>,
    /// Patterns a file must not match.
    pub exclude_globs: Option<Seq<Seq<char>>>,
    /// Depth below which no file is taken.
    pub max_depth: usize,
}

impl View for FileFilter {
    type V = FileFilterView;

    closed spec fn view(&self) -> FileFilterView {
        FileFilterView {
            base_exclude: glob_set_patterns(self.base_exclude),
            include_globs: match self.include_set {
                Some(set) => Some(glob_set_patterns(set)),
                None => None,
            },
            exclude_globs: match self.exclude_set {
                Some(set) => Some(glob_set_patterns(set)),
                None => None,
            },
            max_depth: self.max_depth,
        }
    }
}

impl FileFilterView {
    /// The filter for the given patterns.
    pub open spec fn of(include_globs: Option<Seq<Seq<char>>>, exclude_globs: Option<Seq<Seq<char>>>) -> FileFilterView {
        FileFilterView {
            base_exclude: base_exclude_patterns(),
            include_globs,
            exclude_globs,
            max_depth: depth_for(include_globs),
        }
    }

    /// All patterns of the filter, in the order they are parsed.
    pub open spec fn patterns(self) -> Seq<Seq<char>> {
        self.base_exclude + texts_or_none(self.include_globs) + texts_or_none(self.exclude_globs)
    }

    /// Every pattern of the filter is [`portable`].
    pub open spec fn portable(self) -> bool {
        all_portable(self.patterns())
    }

    /// Whether globset compiles each list of the filter's patterns into a
    /// set of its own.
    pub open spec fn builds(self) -> bool {
        &&& glob_set_builds(self.base_exclude)
        &&& self.include_globs matches Some(patterns) ==> glob_set_builds(patterns)
        &&& self.exclude_globs matches Some(patterns) ==> glob_set_builds(patterns)
    }

    /// Whether an exclusion, built in or given, matches `path`.
    pub open spec fn excludes(self, path: Seq<char>) -> bool {
        ||| glob_set_matches(self.base_exclude, path)
        ||| self.exclude_globs matches Some(patterns) && glob_set_matches(patterns, path)
    }

    /// Whether `path` matches an inclusion, or none is given.
    pub open spec fn includes(self, path: Seq<char>) -> bool {
        self.include_globs matches Some(patterns) ==> glob_set_matches(patterns, path)
    }

    /// Whether a walk keeps an entry of this kind and path.
    ///
    /// A directory is kept unless a built-in exclusion names it. Anything
    /// else is dropped if an exclusion matches it, built in or given, and
    /// otherwise kept if it matches an inclusion or none is given.
    pub open spec fn accepts(self, kind: EntryKind, path: Seq<char>) -> bool {
        if kind == EntryKind::Dir {
            !glob_set_matches(self.base_exclude, path)
        } else {
            !self.excludes(path) && self.includes(path)
        }
    }
}

/// A pattern to blame in the first of two lists is to blame in both
/// together.
proof fn lemma_blames_front(front: Seq<Seq<char>>, back: Seq<Seq<char>>, pattern: Seq<char>)
    requires
        blames(front, pattern),
    ensures
        blames(front + back, pattern),
{
    let all = front + back;
    let at = choose|at: int|
        #![trigger front[at]]
        0 <= at < front.len() && pattern == front[at] && (all_portable(front) ==> first_unparsed(front, at));
    assert(all[at] == front[at]);
    if all_portable(all) {
        assert forall|i: int| 0 <= i < front.len() implies portable(#[trigger] front[i]) by {
            assert(all[i] == front[i]);
        }
        assert forall|j: int| 0 <= j < at implies glob_parses(#[trigger] all[j]) by {
            assert(all[j] == front[j]);
        }
        assert(first_unparsed(all, at));
    }
}

/// A pattern to blame in the second of two lists is to blame in both
/// together if the first list holds none.
proof fn lemma_blames_back(front: Seq<Seq<char>>, back: Seq<Seq<char>>, pattern: Seq<char>)
    requires
        all_portable(front) ==> all_parse(front),
        blames(back, pattern),
    ensures
        blames(front + back, pattern),
{
    let all = front + back;
    let at = choose|at: int|
        #![trigger back[at]]
        0 <= at < back.len() && pattern == back[at] && (all_portable(back) ==> first_unparsed(back, at));
    let here = front.len() + at;
    assert(all[here] == back[at]);
    if all_portable(all) {
        assert forall|i: int| 0 <= i < front.len() implies portable(#[trigger] front[i]) by {
            assert(all[i] == front[i]);
        }
        assert forall|i: int| 0 <= i < back.len() implies portable(#[trigger] back[i]) by {
            assert(all[front.len() + i] == back[i]);
        }
        assert forall|j: int| 0 <= j < here implies glob_parses(#[trigger] all[j]) by {
            if j < front.len() {
                assert(all[j] == front[j]);
            } else {
                assert(all[j] == back[j - front.len()]);
            }
        }
        assert(first_unparsed(all, here));
    }
}

/// Two lists that hold no pattern to blame hold none together.
proof fn lemma_all_parse_both(front: Seq<Seq<char>>, back: Seq<Seq<char>>)
    requires
        all_portable(front) ==> all_parse(front),
        all_portable(back) ==> all_parse(back),
    ensures
        all_portable(front + back) ==> all_parse(front + back),
{
    let all = front + back;
    if all_portable(all) {
        assert forall|i: int| 0 <= i < front.len() implies portable(#[trigger] front[i]) by {
            assert(all[i] == front[i]);
        }
        assert forall|i: int| 0 <= i < back.len() implies portable(#[trigger] back[i]) by {
            assert(all[front.len() + i] == back[i]);
        }
        assert forall|j: int| 0 <= j < all.len() implies glob_parses(#[trigger] all[j]) by {
            if j < front.len() {
                assert(all[j] == front[j]);
            } else {
                assert(all[j] == back[j - front.len()]);
            }
        }
    }
}

/// Whether everything after the entry at `j` and before the one at `i`
/// lies deeper than the entry at `j`: whether the walk is still below it.
pub open spec fn still_below(entries: Seq<WalkEntryView>, j: int, i: int) -> bool {
    forall|k: int| j < k < i ==> (#[trigger] entries[k]).depth > entries[j].depth
}

/// Whether the entry at `i` lies below the entry at `j`.
pub open spec fn below(entries: Seq<WalkEntryView>, j: int, i: int) -> bool {
    0 <= j < i < entries.len() && still_below(entries, j, i + 1)
}

/// Whether the entry at `j` is a directory that the walk does not enter.
pub open spec fn pruned(filter: FileFilterView, entries: Seq<WalkEntryView>, j: int) -> bool {
    &&& 0 <= j < entries.len()
    &&& entries[j].kind == EntryKind::Dir
    &&& !filter.accepts(EntryKind::Dir, entries[j].path)
}

/// Whether the entry at `i` lies below a directory that the walk does not
/// enter.
pub open spec fn hidden(filter: FileFilterView, entries: Seq<WalkEntryView>, i: int) -> bool {
    exists|j: int| #[trigger] pruned(filter, entries, j) && below(entries, j, i)
}

/// Whether the entry at `i` is a file of the listing: a regular file
/// within depth that the filter keeps and that no pruned directory hides.
pub open spec fn selected(filter: FileFilterView, entries: Seq<WalkEntryView>, i: int) -> bool {
    &&& 0 <= i < entries.len()
    &&& entries[i].kind == EntryKind::File
    &&& entries[i].depth <= filter.max_depth
    &&& filter.accepts(EntryKind::File, entries[i].path)
    &&& !hidden(filter, entries, i)
}

/// The paths of the selected entries among the first `n`, in the order met.
pub open spec fn listing_upto(filter: FileFilterView, entries: Seq<WalkEntryView>, n: int) -> Seq<Seq<char>>
    decreases n,
{
    if n <= 0 {
        Seq::empty()
    } else if selected(filter, entries, n - 1) {
        listing_upto(filter, entries, n - 1).push(entries[n - 1].path)
    } else {
        listing_upto(filter, entries, n - 1)
    }
}

/// The listing of a walk: the paths of its selected entries, in the order
/// met.
pub open spec fn listing(filter: FileFilterView, entries: Seq<WalkEntryView>) -> Seq<Seq<char>> {
    listing_upto(filter, entries, entries.len() as int)
}

/// Whether `path` is the path of a regular file among the first `n`
/// entries that lies no deeper than `max_depth`.
pub open spec fn file_within(entries: Seq<WalkEntryView>, n: int, max_depth: usize, path: Seq<char>) -> bool {
    exists|i: int|
        0 <= i < n && i < entries.len() && (#[trigger] entries[i]).path == path && entries[i].kind
            == EntryKind::File && entries[i].depth <= max_depth
}

/// Every text of two lists that are portable together is portable.
proof fn lemma_portable_parts(front: Seq<Seq<char>>, back: Seq<Seq<char>>)
    requires
        all_portable(front + back),
    ensures
        all_portable(front),
        all_portable(back),
{
    let all = front + back;
    assert forall|i: int| 0 <= i < front.len() implies portable(#[trigger] front[i]) by {
        assert(all[i] == front[i]);
    }
    assert forall|i: int| 0 <= i < back.len() implies portable(#[trigger] back[i]) by {
        assert(all[front.len() + i] == back[i]);
    }
}

/// Whether `entry_kept` keeps an entry, given what the three sets say of
/// its path; `excluded` and `included` are `None` where no such patterns
/// are given.
///
/// A directory is kept unless a built-in exclusion matches. Anything else
/// is dropped if an exclusion matches, built in or given, and otherwise
/// kept if an inclusion matches or none is given.
pub open spec fn keeps(kind: EntryKind, base_hit: bool, excluded: Option<bool>, included: Option<bool>) -> bool {
    if kind == EntryKind::Dir {
        !base_hit
    } else {
        !base_hit && excluded != Some(true) && included != Some(false)
    }
}

/// Decides whether a walk keeps an entry, given what the three sets say
/// of its path. Exclusion comes first: where an exclusion matches, no
/// inclusion brings the entry back.
pub fn entry_kept(kind: EntryKind, base_hit: bool, excluded: Option<bool>, included: Option<bool>) -> (keep: bool)
    ensures
        keep == keeps(kind, base_hit, excluded, included),
        kind != EntryKind::Dir && (base_hit || excluded == Some(true)) ==> !keep,
{
    match kind {
        EntryKind::Dir => !base_hit,
        _ => {
            let shut_out = base_hit || match excluded {
                Some(hit) => hit,
                None => false,
            };
            if shut_out {
                false
            } else {
                match included {
                    Some(hit) => hit,
                    None => true,
                }
            }
        },
    }
}

impl FileFilter {
    /// Compiles the patterns of a listing.
    ///
    /// The built-in exclusions are always part of it. All patterns are
    /// parsed before any set is compiled: the call fails with
    /// [`BuddyError::InvalidPattern`], naming the first pattern that does
    /// not parse, if there is one, and with [`BuddyError::PatternSet`]
    /// only if all of them parse and globset cannot compile one of the
    /// lists.
    pub fn new(include_globs: Option<&Vec<String>>, exclude_globs: Option<&Vec<String>>) -> (made: Result<
        FileFilter,
        BuddyError,
    >)
        ensures
            made matches Ok(filter) ==> filter@ == FileFilterView::of(
                optional_texts(include_globs),
                optional_texts(exclude_globs),
            ),
            ({
                let filter = FileFilterView::of(optional_texts(include_globs), optional_texts(exclude_globs));
                &&& compiled_as(filter.patterns(), filter.builds(), made)
                &&& filter.portable() ==> (made is Ok <==> all_parse(filter.patterns()) && filter.builds())
                &&& filter.portable() ==> (made matches Err(BuddyError::InvalidPattern { .. }) <==> !all_parse(
                    filter.patterns(),
                ))
            }),
    {
        let ghost base = base_exclude_patterns();
        let ghost inc = texts_or_none(optional_texts(include_globs));
        let ghost exc = texts_or_none(optional_texts(exclude_globs));
        let ghost all = base + inc + exc;
        proof {
            if all_portable(all) {
                lemma_portable_parts(base + inc, exc);
                lemma_portable_parts(base, inc);
            }
        }
        let base_builder = match parse_globs(&base_exclude_list()) {
            Ok(builder) => builder,
            Err(e) => {
                proof {
                    lemma_blames_front(base, inc, e->pattern@);
                    lemma_blames_front(base + inc, exc, e->pattern@);
                    lemma_blamed_does_not_parse(all, e->pattern@);
                }
                return Err(e);
            },
        };
        let include_builder = match include_globs {
            None => None,
            Some(globs) => match parse_globs(globs) {
                Ok(builder) => Some(builder),
                Err(e) => {
                    proof {
                        lemma_blames_back(base, inc, e->pattern@);
                        lemma_blames_front(base + inc, exc, e->pattern@);
                        lemma_blamed_does_not_parse(all, e->pattern@);
                    }
                    return Err(e);
                },
            },
        };
        proof {
            lemma_all_parse_both(base, inc);
        }
        let exclude_builder = match exclude_globs {
            None => None,
            Some(globs) => match parse_globs(globs) {
                Ok(builder) => Some(builder),
                Err(e) => {
                    proof {
                        lemma_blames_back(base + inc, exc, e->pattern@);
                        lemma_blamed_does_not_parse(all, e->pattern@);
                    }
                    return Err(e);
                },
            },
        };
        proof {
            lemma_all_parse_both(base + inc, exc);
        }
        let max_depth = walk_depth(include_globs);
        let base_exclude = match build_set(&base_builder) {
            Ok(set) => set,
            Err(e) => {
                return Err(e);
            },
        };
        let include_set = match include_builder {
            None => None,
            Some(builder) => match build_set(&builder) {
                Ok(set) => Some(set),
                Err(e) => {
                    return Err(e);
                },
            },
        };
        let exclude_set = match exclude_builder {
            None => None,
            Some(builder) => match build_set(&builder) {
                Ok(set) => Some(set),
                Err(e) => {
                    return Err(e);
                },
            },
        };
        Ok(FileFilter { base_exclude, include_set, exclude_set, max_depth })
    }

    /// Depth below which no file is taken: what to bound the walk by.
    pub fn max_depth(&self) -> (depth: usize)
        ensures
            depth == self@.max_depth,
    {
        self.max_depth
    }

    /// Whether a walk keeps an entry of this kind and path: whether it
    /// reports a file, or goes into a directory.
    pub fn accepts(&self, kind: EntryKind, path: &str) -> (keep: bool)
        ensures
            self@.portable() && portable(path@) ==> keep == self@.accepts(kind, path@),
    {
        proof {
            let all = self@.patterns();
            let base = self@.base_exclude;
            let inc = texts_or_none(self@.include_globs);
            let exc = texts_or_none(self@.exclude_globs);
            if all_portable(all) {
                assert forall|i: int| 0 <= i < base.len() implies portable(#[trigger] base[i]) by {
                    assert(all[i] == base[i]);
                }
                assert forall|i: int| 0 <= i < inc.len() implies portable(#[trigger] inc[i]) by {
                    assert(all[base.len() + i] == inc[i]);
                }
                assert forall|i: int| 0 <= i < exc.len() implies portable(#[trigger] exc[i]) by {
                    assert(all[base.len() + inc.len() + i] == exc[i]);
                }
            }
        }
        let base_hit = glob_set_is_match(&self.base_exclude, path);
        let excluded = match &self.exclude_set {
            Some(set) => Some(glob_set_is_match(set, path)),
            None => None,
        };
        let included = match &self.include_set {
            Some(set) => Some(glob_set_is_match(set, path)),
            None => None,
        };
        entry_kept(kind, base_hit, excluded, included)
    }
}

impl FileFilter {
    /// The files of a walk: see [`listing`].
    ///
    /// Every path returned is that of a regular file met no deeper than
    /// [`FileFilter::max_depth`].
    pub fn select(&self, entries: &Vec<WalkEntry>) -> (files: Vec<String>)
        ensures
            self@.portable() && portable_paths(entry_views(entries@)) ==> texts(files@) == listing(
                self@,
                entry_views(entries@),
            ),
            forall|k: int|
                0 <= k < files.len() ==> file_within(
                    entry_views(entries@),
                    entries.len() as int,
                    self@.max_depth,
                    #[trigger] texts(files@)[k],
                ),
    {
        let ghost filter = self@;
        let ghost walked = entry_views(entries@);
        let ghost alike = filter.portable() && portable_paths(walked);
        let mut files: Vec<String> = Vec::new();
        let mut skip: Option<usize> = None;
        let ghost mut top: int = 0;
        let mut i: usize = 0;
        while i < entries.len()
            invariant
                i <= entries.len(),
                filter == self@,
                walked == entry_views(entries@),
                alike == (filter.portable() && portable_paths(walked)),
                alike ==> texts(files@) == listing_upto(filter, walked, i as int),
                forall|k: int|
                    0 <= k < files.len() ==> file_within(
                        walked,
                        i as int,
                        filter.max_depth,
                        #[trigger] texts(files@)[k],
                    ),
                alike ==> match skip {
                    None => forall|j: int|
                        0 <= j < i ==> !(#[trigger] pruned(filter, walked, j) && still_below(walked, j, i as int)),
                    Some(depth) => {
                        &&& 0 <= top < i
                        &&& pruned(filter, walked, top)
                        &&& still_below(walked, top, i as int)
                        &&& walked[top].depth == depth
                        &&& forall|j: int|
                            0 <= j < top ==> !(#[trigger] pruned(filter, walked, j) && still_below(
                                walked,
                                j,
                                i as int,
                            ))
                    },
                },
            decreases entries.len() - i,
        {
            let entry = &entries[i];
            assert(walked[i as int] == entry@);
            let ghost before = texts(files@);
            let is_hidden = match skip {
                Some(depth) => entry.depth > depth,
                None => false,
            };
            proof {
                if alike {
                    if is_hidden {
                        assert(below(walked, top, i as int));
                    } else {
                        assert forall|j: int| #[trigger] pruned(filter, walked, j) implies !below(
                            walked,
                            j,
                            i as int,
                        ) by {
                            if below(walked, j, i as int) {
                                assert(still_below(walked, j, i as int));
                                if skip is Some {
                                    if j > top {
                                        assert(walked[j].depth > walked[top].depth);
                                    }
                                }
                            }
                        }
                    }
                    assert(is_hidden == hidden(filter, walked, i as int));
                }
            }
            if is_hidden {
            } else {
                skip = None;
                match entry.kind {
                    EntryKind::Dir => {
                        if !self.accepts(EntryKind::Dir, entry.path.as_str()) {
                            skip = Some(entry.depth);
                            proof {
                                top = i as int;
                            }
                        }
                    },
                    EntryKind::File => {
                        if entry.depth <= self.max_depth && self.accepts(EntryKind::File, entry.path.as_str()) {
                            files.push(entry.path.clone());
                            proof {
                                assert(texts(files@) == before.push(entry.path@));
                                assert forall|k: int| 0 <= k < files.len() implies file_within(
                                    walked,
                                    i + 1,
                                    filter.max_depth,
                                    #[trigger] texts(files@)[k],
                                ) by {
                                    if k < before.len() {
                                        assert(file_within(walked, i as int, filter.max_depth, before[k]));
                                    }
                                }
                            }
                        }
                    },
                    EntryKind::Other => {},
                }
            }
            proof {
                assert forall|k: int| 0 <= k < files.len() implies file_within(
                    walked,
                    i + 1,
                    filter.max_depth,
                    #[trigger] texts(files@)[k],
                ) by {
                    if texts(files@) == before {
                        assert(file_within(walked, i as int, filter.max_depth, before[k]));
                    }
                }
                if alike {
                    assert(portable(walked[i as int].path));
                    if is_hidden {
                        assert(still_below(walked, top, i + 1));
                        assert forall|j: int| 0 <= j < top implies !(#[trigger] pruned(filter, walked, j)
                            && still_below(walked, j, i + 1)) by {
                            if still_below(walked, j, i + 1) {
                                assert(still_below(walked, j, i as int));
                            }
                        }
                    } else {
                        assert forall|j: int| 0 <= j < i implies !(#[trigger] pruned(filter, walked, j)
                            && still_below(walked, j, i + 1)) by {
                            if pruned(filter, walked, j) && still_below(walked, j, i + 1) {
                                assert(below(walked, j, i as int));
                            }
                        }
                    }
                }
            }
            i += 1;
        }
        files
    }
}

/// A listing holds exactly the paths of the selected entries.
pub proof fn lemma_listing_holds_selected(filter: FileFilterView, entries: Seq<WalkEntryView>, n: int, path: Seq<char>)
    requires
        0 <= n <= entries.len(),
    ensures
        listing_upto(filter, entries, n).contains(path) <==> exists|i: int|
            0 <= i < n && #[trigger] selected(filter, entries, i) && entries[i].path == path,
    decreases n,
{
    if n > 0 {
        lemma_listing_holds_selected(filter, entries, n - 1, path);
        let before = listing_upto(filter, entries, n - 1);
        if selected(filter, entries, n - 1) {
            let now = before.push(entries[n - 1].path);
            assert(now[now.len() - 1] == entries[n - 1].path);
            if now.contains(path) {
                let k = choose|k: int| 0 <= k < now.len() && now[k] == path;
                if k < before.len() {
                    assert(before[k] == path);
                }
            }
            if before.contains(path) {
                let k = choose|k: int| 0 <= k < before.len() && before[k] == path;
                assert(now[k] == path);
            }
        }
    }
}

/// A listing holds the selected entries in the order met, each once: the
/// places returned, one for each path of the listing, go up strictly, each
/// is that of a selected entry with that path, and no selected entry is
/// left out.
pub proof fn lemma_listing_in_order(filter: FileFilterView, entries: Seq<WalkEntryView>, n: int) -> (places: Seq<
    int,
>)
    requires
        0 <= n <= entries.len(),
    ensures
        places.len() == listing_upto(filter, entries, n).len(),
        forall|k: int|
            0 <= k < places.len() ==> 0 <= #[trigger] places[k] < n && selected(filter, entries, places[k])
                && listing_upto(filter, entries, n)[k] == entries[places[k]].path,
        forall|k: int, l: int| 0 <= k < l < places.len() ==> places[k] < places[l],
        forall|i: int| 0 <= i < n && selected(filter, entries, i) ==> places.contains(i),
    decreases n,
{
    if n == 0 {
        Seq::empty()
    } else {
        let before = lemma_listing_in_order(filter, entries, n - 1);
        if selected(filter, entries, n - 1) {
            let places = before.push(n - 1);
            assert forall|i: int| 0 <= i < n && selected(filter, entries, i) implies places.contains(i) by {
                if i < n - 1 {
                    assert(before.contains(i));
                    let k = choose|k: int| 0 <= k < before.len() && before[k] == i;
                    assert(places[k] == i);
                } else {
                    assert(places[places.len() - 1] == i);
                }
            }
            places
        } else {
            before
        }
    }
}

/// Exclusion comes before inclusion: a path that an exclusion matches,
/// built in or given, is in no listing, whatever inclusion it matches.
pub proof fn lemma_exclusion_wins(filter: FileFilterView, entries: Seq<WalkEntryView>, path: Seq<char>)
    requires
        filter.excludes(path),
    ensures
        forall|kind: EntryKind| kind != EntryKind::Dir ==> !filter.accepts(kind, path),
        glob_set_matches(filter.base_exclude, path) ==> !filter.accepts(EntryKind::Dir, path),
        forall|i: int| 0 <= i < entries.len() && entries[i].path == path ==> !selected(filter, entries, i),
        !listing(filter, entries).contains(path),
{
    lemma_listing_holds_selected(filter, entries, entries.len() as int, path);
}

/// Without a recursive inclusion a listing stays at the top: it holds no
/// file from deeper than the root's own entries, whatever the file's path
/// matches.
pub proof fn lemma_depth_rule(
    include_globs: Option<Seq<Seq<char>>>,
    exclude_globs: Option<Seq<Seq<char>>>,
    entries: Seq<WalkEntryView>,
)
    requires
        include_globs matches Some(patterns) ==> !any_recursive(patterns),
    ensures
        FileFilterView::of(include_globs, exclude_globs).max_depth == 1,
        forall|i: int|
            0 <= i < entries.len() && entries[i].depth > 1 ==> !selected(
                FileFilterView::of(include_globs, exclude_globs),
                entries,
                i,
            ),
        forall|path: Seq<char>|
            listing(FileFilterView::of(include_globs, exclude_globs), entries).contains(path) ==> exists|i: int|
                0 <= i < entries.len() && (#[trigger] entries[i]).path == path && entries[i].depth <= 1,
{
    let filter = FileFilterView::of(include_globs, exclude_globs);
    assert forall|path: Seq<char>| listing(filter, entries).contains(path) implies exists|i: int|
        0 <= i < entries.len() && (#[trigger] entries[i]).path == path && entries[i].depth <= 1 by {
        lemma_listing_holds_selected(filter, entries, entries.len() as int, path);
        let i = choose|i: int|
            0 <= i < entries.len() && #[trigger] selected(filter, entries, i) && entries[i].path == path;
        assert(entries[i].depth <= 1);
    }
}

/// Nothing below a directory that a built-in exclusion names is listed.
pub proof fn lemma_pruned_hides(filter: FileFilterView, entries: Seq<WalkEntryView>, j: int, i: int)
    requires
        pruned(filter, entries, j),
        below(entries, j, i),
    ensures
        !selected(filter, entries, i),
{
}

/// Lists the files of a walked directory tree.
///
/// Fails, whatever the tree holds, if a pattern does not parse, with
/// [`BuddyError::InvalidPattern`], or if the patterns do not compile, with
/// [`BuddyError::PatternSet`]; see [`FileFilter::new`].
///
/// `entries` are the entries met, each directory right before what lies
/// below it. A file is listed if no exclusion matches it, an inclusion
/// matches it unless none is given, and no directory above it is named by
/// a built-in exclusion; without a recursive inclusion, only the files
/// right under the root are. The files come in the order met.
pub fn list_files(
    entries: &Vec<WalkEntry>,
    include_globs: Option<&Vec<String>>,
    exclude_globs: Option<&Vec<String>>,
) -> (listed: Result<Vec<String>, BuddyError>)
    ensures
        ({
            let filter = FileFilterView::of(optional_texts(include_globs), optional_texts(exclude_globs));
            &&& compiled_as(filter.patterns(), filter.builds(), listed)
            &&& filter.portable() ==> (listed is Ok <==> all_parse(filter.patterns()) && filter.builds())
            &&& filter.portable() ==> (listed matches Err(BuddyError::InvalidPattern { .. }) <==> !all_parse(
                filter.patterns(),
            ))
            &&& listed matches Ok(files) ==> {
                &&& filter.portable() && portable_paths(entry_views(entries@)) ==> texts(files@) == listing(
                    filter,
                    entry_views(entries@),
                )
                &&& forall|k: int|
                    0 <= k < files.len() ==> file_within(
                        entry_views(entries@),
                        entries.len() as int,
                        filter.max_depth,
                        #[trigger] texts(files@)[k],
                    )
            }
        }),
{
    match FileFilter::new(include_globs, exclude_globs) {
        Ok(filter) => Ok(filter.select(entries)),
        Err(e) => Err(e),
    }
}

} // verus!
