//! Where a script comes from: the metadata that accompanies its source text
//! into the engine's compiler.

use vstd::prelude::*;
use vstd::string::StrSliceExecFns;
use vstd::string::StringExecFns;

verus! {

/// The character that separates the segments of a path.
pub open spec fn separator() -> char {
    '/'
}

/// The index at which the last segment of `path` begins: just behind the
/// last separator, or 0 where the path holds none.
pub open spec fn segment_start(path: Seq<char>) -> nat
    decreases path.len(),
{
    if path.len() == 0 {
        0
    } else if path.last() == separator() {
        path.len()
    } else {
        segment_start(path.drop_last())
    }
}

/// The last segment of `path`: what follows its last separator, or the whole
/// path where it holds none. It is empty where the path ends in a separator.
pub open spec fn last_segment(path: Seq<char>) -> Seq<char> {
    path.subrange(segment_start(path) as int, path.len() as int)
}

/// `segment_start` lies within the path, no separator stands at or behind it,
/// and it is either the path's beginning or preceded by a separator.
pub proof fn lemma_segment_start(path: Seq<char>)
    ensures
        segment_start(path) <= path.len(),
        forall|i: int| segment_start(path) <= i < path.len() ==> path[i] != separator(),
        segment_start(path) == 0 || path[segment_start(path) - 1] == separator(),
    decreases path.len(),
{
    if path.len() > 0 && path.last() != separator() {
        let front = path.drop_last();
        lemma_segment_start(front);
        assert forall|i: int| segment_start(path) <= i < path.len() implies path[i]
            != separator() by {
            if i < front.len() {
                assert(path[i] == front[i]);
            }
        }
        if segment_start(path) > 0 {
            assert(path[segment_start(path) - 1] == front[segment_start(front) - 1]);
        }
    }
}

/// Any index that is the path's beginning or follows a separator, and has no
/// separator at or behind it, is `segment_start`.
pub proof fn lemma_segment_start_unique(path: Seq<char>, k: int)
    requires
        0 <= k <= path.len(),
        forall|i: int| k <= i < path.len() ==> path[i] != separator(),
        k == 0 || path[k - 1] == separator(),
    ensures
        k == segment_start(path),
    decreases path.len(),
{
    if path.len() > 0 && path.last() != separator() {
        if k == path.len() {
            assert(path[k - 1] == path.last());
        } else {
            let front = path.drop_last();
            assert forall|i: int| k <= i < front.len() implies front[i] != separator() by {
                assert(front[i] == path[i]);
            }
            if k > 0 {
                assert(front[k - 1] == path[k - 1]);
            }
            lemma_segment_start_unique(front, k);
        }
    }
}

/// The metadata of one script: the name it is displayed under, the locator
/// of its source, and the line and column at which its text starts.
#[derive(Debug)]
pub struct ScriptOrigin {
    pub display_name: String,
    pub locator: String,
    pub line_offset: i32,
    pub column_offset: i32,
}

/// A script origin as contracts see it.
pub struct ScriptOriginView {
    pub display_name: Seq<char>,
    pub locator: Seq<char>,
    pub line_offset: int,
    pub column_offset: int,
}

impl View for ScriptOrigin {
    type V = ScriptOriginView;

    open spec fn view(&self) -> ScriptOriginView {
        ScriptOriginView {
            display_name: self.display_name@,
            locator: self.locator@,
            line_offset: self.line_offset as int,
            column_offset: self.column_offset as int,
        }
    }
}

/// The origin of the script stored at `path`: displayed under the path's
/// last segment, located by the path as given, and starting at line 0,
/// column 0.
pub open spec fn origin_of(path: Seq<char>) -> ScriptOriginView {
    ScriptOriginView {
        display_name: last_segment(path),
        locator: path,
        line_offset: 0,
        column_offset: 0,
    }
}

/// The last segment of `path`, as an owned string.
pub fn display_name(path: &str) -> (name: String)
    ensures
        name@ == last_segment(path@),
{
    let len: usize = path.unicode_len();
    let mut start: usize = len;
    while start > 0 && path.get_char(start - 1) != '/'
        invariant
            start <= len,
            len == path@.len(),
            forall|i: int| start <= i < len ==> path@[i] != separator(),
        decreases start,
    {
        start = start - 1;
    }
    proof {
        lemma_segment_start_unique(path@, start as int);
    }
    String::from_str(path.substring_char(start, len))
}

impl ScriptOrigin {
    /// The origin of the script stored at `path`.
    pub fn for_path(path: &str) -> (origin: ScriptOrigin)
        ensures
            origin@ == origin_of(path@),
    {
        ScriptOrigin {
            display_name: display_name(path),
            locator: String::from_str(path),
            line_offset: 0,
            column_offset: 0,
        }
    }
}

} // verus!
