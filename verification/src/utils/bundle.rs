//! What a bundle holds: the text of its source files, one section each.

use vstd::prelude::*;
use crate::error::BuddyError;
use crate::text::chars_of;

verus! {

/// A file to bundle, as it was found.
#[derive(Debug, Clone)]
pub struct SourceFile {
    /// Path of the file, as it is to appear in the bundle.
    pub path: String,
    /// Text of the file, or `None` where the path is no regular file that
    /// could be read.
    pub content: Option<String>,
}

/// A [`SourceFile`] as plain text.
pub struct SourceFileView {
    pub path: Seq<char>,
    pub content: Option<Seq<char>>,
}

impl View for SourceFile {
    type V = SourceFileView;

    open spec fn view(&self) -> SourceFileView {
        SourceFileView {
            path: self.path@,
            content: match self.content {
                Some(text) => Some(text@),
                None => None,
            },
        }
    }
}

/// The files in `files`, as plain text.
pub open spec fn source_views(files: Seq<SourceFile>) -> Seq<SourceFileView> {
    files.map_values(|file: SourceFile| file@)
}

/// Where the first line of `text` ends: at its first line feed, or at the
/// end of the text if it has none.
pub open spec fn line_end(text: Seq<char>) -> int
    decreases text.len(),
{
    if text.len() == 0 || text[0] == '\n' {
        0
    } else {
        1 + line_end(text.drop_first())
    }
}

/// A line without the carriage return that ends it, if one does.
pub open spec fn strip_cr(line: Seq<char>) -> Seq<char> {
    if line.len() > 0 && line.last() == '\r' {
        line.drop_last()
    } else {
        line
    }
}

/// The lines of `text`.
///
/// A line ends at a line feed, which is not part of it, and neither is a
/// carriage return right before that line feed. Text after the last line
/// feed is a line as it stands; no text after it is no line.
pub open spec fn lines_of(text: Seq<char>) -> Seq<Seq<char>>
    decreases text.len(),
{
    let end = line_end(text);
    if text.len() == 0 {
        Seq::empty()
    } else if 0 <= end < text.len() {
        seq![strip_cr(text.take(end))] + lines_of(text.skip(end + 1))
    } else {
        seq![text]
    }
}

/// `lines`, each followed by a line feed.
pub open spec fn joined(lines: Seq<Seq<char>>) -> Seq<char>
    decreases lines.len(),
{
    if lines.len() == 0 {
        Seq::empty()
    } else {
        lines[0].push('\n') + joined(lines.drop_first())
    }
}

/// The section of one file: the line that names the path, an empty line,
/// the file's lines, and two empty lines.
pub open spec fn section(path: Seq<char>, content: Seq<char>) -> Seq<char> {
    "// ==== File Path: "@ + path + "\n\n"@ + joined(lines_of(content)) + "\n\n"@
}

/// Whether every file in `files` has text.
pub open spec fn all_readable(files: Seq<SourceFileView>) -> bool {
    forall|i: int| 0 <= i < files.len() ==> (#[trigger] files[i]).content is Some
}

/// Whether `at` is the first place in `files` that holds a file without
/// text.
pub open spec fn first_unreadable(files: Seq<SourceFileView>, at: int) -> bool {
    &&& 0 <= at < files.len()
    &&& files[at].content is None
    &&& all_readable(files.take(at))
}

/// The text of a bundle: the sections of `files`, in their order. A file
/// without text has no section.
pub open spec fn bundle_text(files: Seq<SourceFileView>) -> Seq<char>
    decreases files.len(),
{
    if files.len() == 0 {
        Seq::empty()
    } else {
        bundle_text(files.drop_last()) + match files.last().content {
            Some(content) => section(files.last().path, content),
            None => Seq::empty(),
        }
    }
}

/// A place that holds a line feed or is the end, with no line feed before
/// it, is where the first line ends.
proof fn lemma_line_end_is(text: Seq<char>, end: int)
    requires
        0 <= end <= text.len(),
        end < text.len() ==> text[end] == '\n',
        forall|k: int| 0 <= k < end ==> text[k] != '\n',
    ensures
        line_end(text) == end,
    decreases text.len(),
{
    if text.len() == 0 || text[0] == '\n' {
    } else {
        let rest = text.drop_first();
        assert forall|k: int| 0 <= k < end - 1 implies rest[k] != '\n' by {
            assert(rest[k] == text[k + 1]);
        }
        lemma_line_end_is(rest, end - 1);
    }
}

/// Appends the lines of `content` to `dst`, each followed by a line feed.
fn append_lines(dst: &mut String, content: &str)
    ensures
        final(dst)@ == old(dst)@ + joined(lines_of(content@)),
{
    let chars = chars_of(content);
    let ghost text = content@;
    let n = chars.len();
    let mut pos: usize = 0;
    assert(text.skip(0) == text);
    while pos < n
        invariant
            pos <= n,
            n == chars.len(),
            chars@ == text,
            dst@ + joined(lines_of(text.skip(pos as int))) == old(dst)@ + joined(lines_of(text)),
        decreases n - pos,
    {
        let ghost rest = text.skip(pos as int);
        let ghost before = dst@;
        let mut end: usize = pos;
        while end < n && chars[end] != '\n'
            invariant
                pos <= end <= n,
                n == chars.len(),
                chars@ == text,
                forall|k: int| pos <= k < end ==> text[k] != '\n',
            decreases n - end,
        {
            end += 1;
        }
        let terminated = end < n;
        let stop: usize = if terminated && end > pos && chars[end - 1] == '\r' {
            (end - 1) as usize
        } else {
            end
        };
        proof {
            assert forall|k: int| 0 <= k < end - pos implies rest[k] != '\n' by {
                assert(rest[k] == text[pos + k]);
            }
            lemma_line_end_is(rest, end - pos);
        }
        let ghost line = if terminated {
            strip_cr(rest.take(end - pos))
        } else {
            rest
        };
        assert(line == text.subrange(pos as int, stop as int)) by {
            if terminated {
                assert(rest.take(end - pos) == text.subrange(pos as int, end as int));
                if end > pos {
                    assert(rest.take(end - pos).last() == text[end - 1]);
                }
            } else {
                assert(rest == text.subrange(pos as int, n as int));
            }
        }
        let mut at: usize = pos;
        while at < stop
            invariant
                pos <= at <= stop <= n,
                n == chars.len(),
                chars@ == text,
                dst@ == before + text.subrange(pos as int, at as int),
            decreases stop - at,
        {
            dst.push(chars[at]);
            assert(text.subrange(pos as int, at as int).push(text[at as int]) == text.subrange(
                pos as int,
                at + 1,
            ));
            at += 1;
        }
        dst.push('\n');
        proof {
            let lines = lines_of(rest);
            let after = if terminated {
                text.skip(end + 1)
            } else {
                text.skip(n as int)
            };
            if terminated {
                assert(rest.skip(end - pos + 1) == after);
            } else {
                assert(after.len() == 0);
                assert(lines_of(after) == Seq::<Seq<char>>::empty());
            }
            assert(lines == seq![line] + lines_of(after));
            assert(lines[0] == line);
            assert(lines.drop_first() == lines_of(after));
            assert(joined(lines) == line.push('\n') + joined(lines_of(after)));
            assert(dst@ == before + line.push('\n'));
            assert(dst@ + joined(lines_of(after)) == before + joined(lines));
        }
        pos = if terminated {
            end + 1
        } else {
            n
        };
    }
    proof {
        assert(text.skip(pos as int).len() == 0);
        assert(joined(lines_of(text.skip(pos as int))) == Seq::<char>::empty());
    }
}

/// Writes the bundle of `files` into `dst`, in place of what `dst` held.
///
/// Each file gets its [`section`]. The first file without text ends the
/// bundling with [`BuddyError::NotAFile`]; `dst` then holds the sections
/// of the files before it, and is not to be used as a bundle.
pub fn bundle_to_file(files: &Vec<SourceFile>, dst: &mut String) -> (done: Result<(), BuddyError>)
    ensures
        match done {
            Ok(_) => all_readable(source_views(files@)) && final(dst)@ == bundle_text(source_views(files@)),
            Err(BuddyError::NotAFile { path }) => exists|at: int|
                #![trigger source_views(files@)[at]]
                first_unreadable(source_views(files@), at) && path@ == source_views(files@)[at].path
                    && final(dst)@ == bundle_text(source_views(files@).take(at)),
            Err(_) => false,
        },
{
    let ghost sources = source_views(files@);
    *dst = String::new();
    let mut i: usize = 0;
    while i < files.len()
        invariant
            i <= files.len(),
            sources == source_views(files@),
            all_readable(sources.take(i as int)),
            dst@ == bundle_text(sources.take(i as int)),
        decreases files.len() - i,
    {
        let file = &files[i];
        assert(sources[i as int] == file@);
        match &file.content {
            None => {
                let path = file.path.clone();
                assert(first_unreadable(sources, i as int));
                return Err(BuddyError::NotAFile { path });
            },
            Some(content) => {
                dst.append("// ==== File Path: ");
                dst.append(file.path.as_str());
                dst.append("\n\n");
                append_lines(dst, content.as_str());
                dst.append("\n\n");
                proof {
                    let now = sources.take(i + 1);
                    assert(now.drop_last() == sources.take(i as int));
                    assert(now.last() == file@);
                    assert(dst@ == bundle_text(sources.take(i as int)) + section(file.path@, content@));
                    assert forall|k: int| 0 <= k < now.len() implies (#[trigger] now[k]).content is Some by {
                        if k < i {
                            assert(sources.take(i as int)[k] == now[k]);
                        }
                    }
                }
            },
        }
        i += 1;
    }
    assert(sources.take(i as int) == sources);
    Ok(())
}

/// Bundling is repeatable: the text of a bundle depends on nothing but
/// the paths and texts of its files, in their order. Two lists that agree
/// in these give the same bundle, character for character.
pub proof fn lemma_bundle_repeatable(first: Seq<SourceFileView>, second: Seq<SourceFileView>)
    requires
        first.len() == second.len(),
        forall|i: int|
            0 <= i < first.len() ==> first[i].path == second[i].path && first[i].content == second[i].content,
    ensures
        bundle_text(first) == bundle_text(second),
{
    assert(first =~= second);
}

} // verus!
