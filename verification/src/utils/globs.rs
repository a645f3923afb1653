//! Sets of glob patterns.
//!
//! Parsing and matching are globset's. What this library relies on is
//! stated here, once, for the five calls it makes.

use vstd::prelude::*;
use crate::error::BuddyError;
use crate::text::texts;

verus! {

/// `globset::Glob`, a parsed pattern. Nothing is known of its inside.
#[verifier::external_type_specification]
#[verifier::external_body]
pub struct ExGlob(globset::Glob);

/// `globset::GlobSetBuilder`, the globs of a set in the making. Nothing is
/// known of its inside.
#[verifier::external_type_specification]
#[verifier::external_body]
pub struct ExGlobSetBuilder(globset::GlobSetBuilder);

/// `globset::GlobSet`, a set of globs ready for matching. Nothing is known
/// of its inside.
#[verifier::external_type_specification]
#[verifier::external_body]
pub struct ExGlobSet(globset::GlobSet);

/// `globset::Error`, why a pattern or a set was refused. Nothing is known
/// of its inside.
#[verifier::external_type_specification]
#[verifier::external_body]
pub struct ExGlobError(globset::Error);

/// Text without a backslash.
///
/// globset reads a backslash as an escape where the platform's paths do not
/// use it and as a path separator where they do. All other text it reads
/// alike everywhere, so what is said below of parsing and matching is said
/// of such text only.
pub open spec fn portable(text: Seq<char>) -> bool {
    !text.contains('\\')
}

/// Every text in `texts` is [`portable`].
pub open spec fn all_portable(texts: Seq<Seq<char>>) -> bool {
    forall|i: int| 0 <= i < texts.len() ==> portable(#[trigger] texts[i])
}

/// Whether globset accepts `pattern` as a glob: whether `Glob::new`
/// returns `Ok` for it.
pub uninterp spec fn glob_parses(pattern: Seq<char>) -> bool;

/// What a glob holds: for a glob that `Glob::new` made, the pattern it was
/// parsed from.
pub uninterp spec fn glob_pattern(glob: globset::Glob) -> Seq<char>;

/// What a builder holds: its globs, in the order they were added.
pub uninterp spec fn builder_patterns(builder: globset::GlobSetBuilder) -> Seq<Seq<char>>;

/// What a set holds: the globs of the builder it was built from.
pub uninterp spec fn glob_set_patterns(set: globset::GlobSet) -> Seq<Seq<char>>;

/// Whether globset compiles globs of these patterns into one set: whether
/// `GlobSetBuilder::build` returns `Ok` for a builder that holds them.
pub uninterp spec fn glob_set_builds(patterns: Seq<Seq<char>>) -> bool;

/// Whether a set of `patterns` matches `path`: what `GlobSet::is_match`
/// returns, which is whether any glob of the set matches the path.
pub uninterp spec fn glob_set_matches(patterns: Seq<Seq<char>>, path: Seq<char>) -> bool;

/// `globset::Glob::new`. A portable pattern is accepted exactly when
/// [`glob_parses`] says so, and the glob made holds the pattern.
#[verifier::external_body]
fn parse_glob(pattern: &str) -> (parsed: Result<globset::Glob, globset::Error>)
    ensures
        portable(pattern@) ==> (parsed is Ok <==> glob_parses(pattern@)),
        parsed matches Ok(glob) ==> glob_pattern(glob) == pattern@,
{
    globset::Glob::new(pattern)
}

/// `globset::GlobSetBuilder::new`. The new builder holds no glob.
#[verifier::external_body]
fn new_builder() -> (builder: globset::GlobSetBuilder)
    ensures
        builder_patterns(builder) == Seq::<Seq<char>>::empty(),
{
    globset::GlobSetBuilder::new()
}

/// `globset::GlobSetBuilder::add`. The glob goes behind those already
/// there.
#[verifier::external_body]
fn add_glob(builder: &mut globset::GlobSetBuilder, glob: globset::Glob)
    ensures
        builder_patterns(*final(builder)) == builder_patterns(*old(builder)).push(glob_pattern(glob)),
{
    builder.add(glob);
}

/// `globset::GlobSetBuilder::build`. Portable globs compile into one set
/// exactly when [`glob_set_builds`] says so, a builder without globs always
/// does, and a set that comes back holds the builder's globs.
#[verifier::external_body]
fn build_glob_set(builder: &globset::GlobSetBuilder) -> (built: Result<globset::GlobSet, globset::Error>)
    ensures
        built matches Ok(set) ==> glob_set_patterns(set) == builder_patterns(*builder),
        all_portable(builder_patterns(*builder)) ==> (built is Ok <==> glob_set_builds(builder_patterns(*builder))),
        builder_patterns(*builder).len() == 0 ==> built is Ok,
{
    builder.build()
}

/// `globset::GlobSet::is_match`. For portable patterns and a portable
/// path the answer is [`glob_set_matches`]; a set without globs matches
/// nothing.
#[verifier::external_body]
pub(crate) fn glob_set_is_match(set: &globset::GlobSet, path: &str) -> (hit: bool)
    ensures
        all_portable(glob_set_patterns(*set)) && portable(path@) ==> hit == glob_set_matches(
            glob_set_patterns(*set),
            path@,
        ),
        glob_set_patterns(*set).len() == 0 ==> !hit,
{
    set.is_match(path)
}

/// Whether `at` is the first place in `patterns` that holds a pattern
/// which does not parse.
pub open spec fn first_unparsed(patterns: Seq<Seq<char>>, at: int) -> bool {
    &&& 0 <= at < patterns.len()
    &&& !glob_parses(patterns[at])
    &&& forall|j: int| 0 <= j < at ==> glob_parses(#[trigger] patterns[j])
}

/// Every pattern in `patterns` parses.
pub open spec fn all_parse(patterns: Seq<Seq<char>>) -> bool {
    forall|i: int| 0 <= i < patterns.len() ==> glob_parses(#[trigger] patterns[i])
}

/// Whether `pattern` is the one to blame when `patterns` fail to parse: it
/// is among them, and where they are portable it is the first that does
/// not parse.
pub open spec fn blames(patterns: Seq<Seq<char>>, pattern: Seq<char>) -> bool {
    exists|at: int|
        #![trigger patterns[at]]
        0 <= at < patterns.len() && pattern == patterns[at] && (all_portable(patterns) ==> first_unparsed(
            patterns,
            at,
        ))
}

/// Whether `made` is the end that compiling `patterns` owes, `builds`
/// telling whether globset compiles them once parsed.
///
/// The error that names a pattern names the one to blame. Where the
/// patterns are portable, success comes exactly if all of them parse and
/// compile, and [`BuddyError::PatternSet`] exactly if all of them parse and
/// do not compile.
pub open spec fn compiled_as<T>(patterns: Seq<Seq<char>>, builds: bool, made: Result<T, BuddyError>) -> bool {
    match made {
        Ok(_) => all_portable(patterns) ==> all_parse(patterns) && builds,
        Err(BuddyError::InvalidPattern { pattern }) => blames(patterns, pattern@),
        Err(BuddyError::PatternSet) => all_portable(patterns) ==> all_parse(patterns) && !builds,
        Err(_) => false,
    }
}

/// Parses `globs` into a builder.
///
/// Fails with [`BuddyError::InvalidPattern`], naming the first pattern that
/// does not parse, if there is one.
pub(crate) fn parse_globs(globs: &Vec<String>) -> (parsed: Result<globset::GlobSetBuilder, BuddyError>)
    ensures
        parsed matches Ok(builder) ==> builder_patterns(builder) == texts(globs@),
        parsed is Ok ==> (all_portable(texts(globs@)) ==> all_parse(texts(globs@))),
        parsed matches Err(e) ==> e matches BuddyError::InvalidPattern { pattern } && blames(texts(globs@), pattern@),
{
    let ghost patterns = texts(globs@);
    let mut builder = new_builder();
    let mut i: usize = 0;
    while i < globs.len()
        invariant
            i <= globs.len(),
            patterns == texts(globs@),
            builder_patterns(builder) == patterns.take(i as int),
            all_portable(patterns) ==> forall|j: int| 0 <= j < i ==> glob_parses(#[trigger] patterns[j]),
        decreases globs.len() - i,
    {
        match parse_glob(globs[i].as_str()) {
            Ok(glob) => {
                add_glob(&mut builder, glob);
                assert(patterns.take(i as int).push(patterns[i as int]) == patterns.take(i + 1));
            },
            Err(_) => {
                let pattern = globs[i].clone();
                assert(pattern@ == patterns[i as int]);
                assert(all_portable(patterns) ==> first_unparsed(patterns, i as int));
                assert(blames(patterns, pattern@));
                return Err(BuddyError::InvalidPattern { pattern });
            },
        }
        i += 1;
    }
    assert(patterns.take(i as int) == patterns);
    Ok(builder)
}

/// Compiles the globs of `builder` into one set, or fails with
/// [`BuddyError::PatternSet`].
pub(crate) fn build_set(builder: &globset::GlobSetBuilder) -> (built: Result<globset::GlobSet, BuddyError>)
    ensures
        built matches Ok(set) ==> glob_set_patterns(set) == builder_patterns(*builder),
        built matches Err(e) ==> e is PatternSet,
        all_portable(builder_patterns(*builder)) ==> (built is Ok <==> glob_set_builds(builder_patterns(*builder))),
        builder_patterns(*builder).len() == 0 ==> built is Ok,
{
    match build_glob_set(builder) {
        Ok(set) => Ok(set),
        Err(_) => Err(BuddyError::PatternSet),
    }
}

/// Compiles `globs` into one set.
///
/// Fails with [`BuddyError::InvalidPattern`], naming the first pattern that
/// does not parse, if there is one. Patterns that all parse give the set,
/// unless globset cannot compile them together, which gives
/// [`BuddyError::PatternSet`]. No patterns always give a set.
pub fn get_glob_set(globs: &Vec<String>) -> (built: Result<globset::GlobSet, BuddyError>)
    ensures
        built matches Ok(set) ==> glob_set_patterns(set) == texts(globs@),
        compiled_as(texts(globs@), glob_set_builds(texts(globs@)), built),
        all_portable(texts(globs@)) ==> (built is Ok <==> all_parse(texts(globs@)) && glob_set_builds(texts(globs@))),
        globs.len() == 0 ==> built is Ok,
{
    match parse_globs(globs) {
        Ok(builder) => build_set(&builder),
        Err(e) => {
            proof {
                lemma_blamed_does_not_parse(texts(globs@), e->pattern@);
            }
            Err(e)
        },
    }
}

/// Portable patterns that hold one to blame do not all parse.
pub proof fn lemma_blamed_does_not_parse(patterns: Seq<Seq<char>>, pattern: Seq<char>)
    requires
        blames(patterns, pattern),
    ensures
        all_portable(patterns) ==> !all_parse(patterns),
{
}

} // verus!
