//! Paths as text: separators, base names and joins.
//!
//! A path is a string whose components are separated by `/`. Nothing here
//! touches the file system; these are the purely lexical operations.

use vstd::prelude::*;
use vstd::string::*;

verus! {

/// The character that separates the components of a path.
pub const SEPARATOR: char = '/';

/// Index at which the last segment of `path` begins: just behind its last
/// separator, or 0 when it holds none.
pub open spec fn segment_start(path: Seq<char>) -> int
    decreases path.len(),
{
    if path.len() == 0 || path.last() == SEPARATOR {
        path.len() as int
    } else {
        segment_start(path.drop_last())
    }
}

/// The final component of `path`, if it names something.
///
/// Trailing separators are ignored, and so is a trailing `.` segment unless
/// it is the whole path. A path that ends in `..`, or that has no component
/// at all, has no base name.
pub open spec fn base_name(path: Seq<char>) -> Option<Seq<char>>
    decreases path.len(),
{
    if path.len() == 0 {
        None
    } else if path.last() == SEPARATOR {
        base_name(path.drop_last())
    } else {
        let start = segment_start(path);
        let segment = path.subrange(start, path.len() as int);
        if segment == seq!['.', '.'] {
            None
        } else if segment == seq!['.'] {
            if 0 < start < path.len() {
                base_name(path.take(start))
            } else {
                None
            }
        } else {
            Some(segment)
        }
    }
}

/// `name` resolved against `dir`: an absolute `name` stands alone, otherwise
/// it follows `dir`, with one separator between them where `dir` does not
/// already end in one.
pub open spec fn join(dir: Seq<char>, name: Seq<char>) -> Seq<char> {
    if name.len() > 0 && name[0] == SEPARATOR {
        name
    } else if dir.len() == 0 || dir.last() == SEPARATOR {
        dir + name
    } else {
        dir + seq![SEPARATOR] + name
    }
}

/// The last segment starts inside the path, and no separator follows it.
pub proof fn lemma_segment_start(path: Seq<char>)
    ensures
        0 <= segment_start(path) <= path.len(),
        segment_start(path) > 0 ==> path[segment_start(path) - 1] == SEPARATOR,
        forall|i: int| segment_start(path) <= i < path.len() ==> path[i] != SEPARATOR,
    decreases path.len(),
{
    if path.len() == 0 || path.last() == SEPARATOR {
    } else {
        let front = path.drop_last();
        lemma_segment_start(front);
        assert forall|i: int| segment_start(path) <= i < path.len() implies path[i]
            != SEPARATOR by {
            if i < front.len() {
                assert(path[i] == front[i]);
            }
        }
    }
}

/// The characters of `text`, in order.
pub fn chars_of(text: &str) -> (chars: Vec<char>)
    ensures
        chars@ == text@,
{
    let mut chars: Vec<char> = Vec::new();
    for c in it: text.chars()
        invariant
            it.seq() == text@,
            chars@ == text@.take(it.index() as int),
    {
        chars.push(c);
    }
    chars
}

/// Computes [`segment_start`] for the first `end` characters.
fn find_segment_start(chars: &Vec<char>, end: usize) -> (start: usize)
    requires
        end <= chars.len(),
    ensures
        start == segment_start(chars@.take(end as int)),
        start <= end,
{
    let mut start: usize = end;
    while start > 0 && chars[start - 1] != SEPARATOR
        invariant
            start <= end <= chars.len(),
            segment_start(chars@.take(end as int)) == segment_start(chars@.take(start as int)),
        decreases start,
    {
        assert(chars@.take(start as int).drop_last() == chars@.take(start as int - 1));
        start = start - 1;
    }
    start
}

/// The final component of `path`, as [`base_name`] defines it.
pub fn file_name(path: &str) -> (name: Option<String>)
    ensures
        name is Some == base_name(path@) is Some,
        name matches Some(n) ==> base_name(path@) == Some(n@),
{
    let chars = chars_of(path);
    let mut end: usize = chars.len();
    assert(chars@.take(end as int) == path@);
    loop
        invariant
            chars@ == path@,
            end <= chars.len(),
            base_name(path@) == base_name(chars@.take(end as int)),
        decreases end,
    {
        let ghost prefix = chars@.take(end as int);
        if end == 0 {
            return None;
        }
        if chars[end - 1] == SEPARATOR {
            assert(prefix.drop_last() == chars@.take(end as int - 1));
            end = end - 1;
            continue ;
        }
        let start = find_segment_start(&chars, end);
        proof {
            lemma_segment_start(prefix);
            assert(prefix.subrange(start as int, end as int) == path@.subrange(
                start as int,
                end as int,
            ));
        }
        let ghost segment = prefix.subrange(start as int, end as int);
        if end - start == 2 && chars[start] == '.' && chars[start + 1] == '.' {
            assert(segment == seq!['.', '.']);
            return None;
        }
        if end - start == 1 && chars[start] == '.' {
            assert(segment == seq!['.']);
            if start == 0 {
                return None;
            }
            assert(prefix.take(start as int) == chars@.take(start as int));
            end = start;
            continue ;
        }
        assert(segment != seq!['.', '.']) by {
            if segment == seq!['.', '.'] {
                assert(segment.len() == 2);
                assert(segment[0] == '.' && segment[1] == '.');
            }
        }
        assert(segment != seq!['.']) by {
            if segment == seq!['.'] {
                assert(segment.len() == 1);
                assert(segment[0] == '.');
            }
        }
        let name = path.substring_char(start, end);
        return Some(String::from_str(name));
    }
}

/// Resolves `name` against `dir`, as [`join`] defines it.
pub fn join_path(dir: &str, name: &str) -> (joined: String)
    ensures
        joined@ == join(dir@, name@),
{
    let dir_len = dir.unicode_len();
    let name_len = name.unicode_len();
    if name_len > 0 && name.get_char(0) == SEPARATOR {
        return String::from_str(name);
    }
    let mut joined = String::from_str(dir);
    if dir_len > 0 && dir.get_char(dir_len - 1) != SEPARATOR {
        proof {
            reveal_strlit("/");
        }
        joined.append("/");
    }
    joined.append(name);
    joined
}

} // verus!
