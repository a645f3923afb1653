//! The parts of a path.

use vstd::prelude::*;
use vstd::string::StrSliceExecFns;
use crate::text::chars_of;

verus! {

/// `path` without what ends it but names nothing: separators, and dots
/// that stand for the directory itself.
pub open spec fn trimmed(path: Seq<char>) -> Seq<char>
    decreases path.len(),
{
    if path.len() > 0 && path.last() == '/' {
        trimmed(path.drop_last())
    } else if path.len() >= 2 && path.last() == '.' && path[path.len() - 2] == '/' {
        trimmed(path.drop_last())
    } else {
        path
    }
}

/// What follows the last separator of `path`, or all of it if it has none.
pub open spec fn last_part(path: Seq<char>) -> Seq<char>
    decreases path.len(),
{
    if path.len() == 0 || path.last() == '/' {
        Seq::empty()
    } else {
        last_part(path.drop_last()).push(path.last())
    }
}

/// The file name of `path`: its last part, unless the path ends in the
/// directory itself, its parent or the root, which gives the empty text.
pub open spec fn file_name_of(path: Seq<char>) -> Seq<char> {
    let name = last_part(trimmed(path));
    if name == seq!['.'] || name == seq!['.', '.'] {
        Seq::empty()
    } else {
        name
    }
}

/// Where the last dot of `name` stands, or -1 if it has none.
pub open spec fn last_dot(name: Seq<char>) -> int
    decreases name.len(),
{
    if name.len() == 0 {
        -1
    } else if name.last() == '.' {
        name.len() - 1
    } else {
        last_dot(name.drop_last())
    }
}

/// The extension of `path`: what follows the last dot of its file name,
/// unless the name has no dot or only begins with one, which gives the
/// empty text.
pub open spec fn extension_of(path: Seq<char>) -> Seq<char> {
    let name = file_name_of(path);
    let dot = last_dot(name);
    if dot <= 0 {
        Seq::empty()
    } else {
        name.skip(dot + 1)
    }
}

/// A path whose parts can be had as text, the empty text standing for a
/// part that is not there.
pub trait XFile {
    /// The path as text.
    spec fn path_text(&self) -> Seq<char>;

    /// The file name of the path: see [`file_name_of`].
    fn x_file_name(&self) -> (name: &str)
        ensures
            name@ == file_name_of(self.path_text()),
    ;

    /// The extension of the path: see [`extension_of`].
    fn x_extension(&self) -> (ext: &str)
        ensures
            ext@ == extension_of(self.path_text()),
    ;
}

/// The last part of a path starts at `start` if a separator stands right
/// before and none from there on.
proof fn lemma_last_part(path: Seq<char>, start: int)
    requires
        0 <= start <= path.len(),
        start > 0 ==> path[start - 1] == '/',
        forall|k: int| start <= k < path.len() ==> path[k] != '/',
    ensures
        last_part(path) == path.skip(start),
    decreases path.len(),
{
    if path.len() == 0 || path.last() == '/' {
        assert(path.skip(start) =~= Seq::<char>::empty());
    } else {
        let shorter = path.drop_last();
        lemma_last_part(shorter, start);
        assert(shorter.skip(start).push(path.last()) =~= path.skip(start));
    }
}

/// The last dot of a name stands at `dot` if none comes after it.
proof fn lemma_last_dot(name: Seq<char>, dot: int)
    requires
        -1 <= dot < name.len(),
        dot >= 0 ==> name[dot] == '.',
        forall|k: int| dot < k < name.len() ==> name[k] != '.',
    ensures
        last_dot(name) == dot,
    decreases name.len(),
{
    if name.len() > 0 && name.last() != '.' {
        lemma_last_dot(name.drop_last(), dot);
    }
}

/// Where the file name of `chars` starts and ends; the two are equal
/// where there is none.
fn file_name_span(chars: &Vec<char>) -> (span: (usize, usize))
    ensures
        span.0 <= span.1 <= chars.len(),
        chars@.subrange(span.0 as int, span.1 as int) == file_name_of(chars@),
{
    let ghost path = chars@;
    let mut end: usize = chars.len();
    assert(path.take(end as int) == path);
    while end > 0 && (chars[end - 1] == '/' || (end >= 2 && chars[end - 1] == '.' && chars[end - 2] == '/'))
        invariant
            end <= chars.len(),
            path == chars@,
            trimmed(path) == trimmed(path.take(end as int)),
        decreases end,
    {
        assert(path.take(end as int).drop_last() == path.take(end - 1));
        end -= 1;
    }
    let ghost kept = path.take(end as int);
    assert(trimmed(kept) == kept);
    let mut start: usize = end;
    while start > 0 && chars[start - 1] != '/'
        invariant
            start <= end <= chars.len(),
            path == chars@,
            forall|k: int| start <= k < end ==> path[k] != '/',
        decreases start,
    {
        start -= 1;
    }
    proof {
        lemma_last_part(kept, start as int);
        assert(kept.skip(start as int) == path.subrange(start as int, end as int));
    }
    let len = end - start;
    let dots = (len == 1 && chars[start] == '.') || (len == 2 && chars[start] == '.' && chars[start + 1] == '.');
    proof {
        let name = path.subrange(start as int, end as int);
        if dots {
            if len == 1 {
                assert(name =~= seq!['.']);
            } else {
                assert(name =~= seq!['.', '.']);
            }
        } else {
            if name == seq!['.'] {
                assert(name[0] == '.');
            }
            if name == seq!['.', '.'] {
                assert(name[0] == '.' && name[1] == '.');
            }
        }
    }
    if dots {
        assert(path.subrange(end as int, end as int) =~= Seq::<char>::empty());
        (end, end)
    } else {
        (start, end)
    }
}

impl XFile for str {
    open spec fn path_text(&self) -> Seq<char> {
        self@
    }

    fn x_file_name(&self) -> (name: &str) {
        let chars = chars_of(self);
        let (start, end) = file_name_span(&chars);
        self.substring_char(start, end)
    }

    fn x_extension(&self) -> (ext: &str) {
        let chars = chars_of(self);
        let (start, end) = file_name_span(&chars);
        let ghost name = self@.subrange(start as int, end as int);
        let mut dot: usize = end;
        while dot > start && chars[dot - 1] != '.'
            invariant
                start <= dot <= end <= chars.len(),
                chars@ == self@,
                forall|k: int| dot <= k < end ==> self@[k] != '.',
            decreases dot,
        {
            dot -= 1;
        }
        proof {
            lemma_last_dot(name, dot - start - 1);
        }
        if dot - start <= 1 {
            assert(self@.subrange(end as int, end as int) =~= Seq::<char>::empty());
            self.substring_char(end, end)
        } else {
            assert(name.skip(dot - start) =~= self@.subrange(dot as int, end as int));
            self.substring_char(dot, end)
        }
    }
}

} // verus!
