//! Paths as text. A path is a sequence of characters in which `/` separates
//! the components; nothing here touches a file system.

use vstd::prelude::*;
use vstd::string::*;

verus! {

/// The character that separates the components of a path.
pub const SEPARATOR: char = '/';

/// `base` extended by `component`: an absolute component replaces the base,
/// any other is appended, after a separator unless the base is empty or ends
/// in one already.
pub open spec fn joined(base: Seq<char>, component: Seq<char>) -> Seq<char> {
    if component.len() > 0 && component[0] == SEPARATOR {
        component
    } else if base.len() == 0 || base.last() == SEPARATOR {
        base + component
    } else {
        base.push(SEPARATOR) + component
    }
}

/// Extends `base` by `component`.
pub fn join(base: &str, component: &str) -> (path: String)
    ensures
        path@ == joined(base@, component@),
{
    let base_len: usize = base.unicode_len();
    let component_len: usize = component.unicode_len();
    if component_len > 0 && component.get_char(0) == SEPARATOR {
        return component.to_owned();
    }
    let mut path = base.to_owned();
    if base_len > 0 && base.get_char(base_len - 1) != SEPARATOR {
        proof {
            reveal_strlit("/");
        }
        path.append("/");
        assert(path@ =~= base@.push(SEPARATOR));
    }
    path.append(component);
    path
}

/// The index of the last occurrence of `c` in `text`, or -1 where there is
/// none.
pub open spec fn last_index_of(text: Seq<char>, c: char) -> int
    decreases text.len(),
{
    if text.len() == 0 {
        -1
    } else if text.last() == c {
        text.len() - 1
    } else {
        last_index_of(text.drop_last(), c)
    }
}

/// What `last_index_of` returns is either -1, with `c` nowhere in `text`, or
/// the position of a `c` behind which no other stands.
pub proof fn lemma_last_index_of(text: Seq<char>, c: char)
    ensures
        -1 <= last_index_of(text, c) < text.len(),
        last_index_of(text, c) >= 0 ==> text[last_index_of(text, c)] == c,
        forall|i: int| last_index_of(text, c) < i < text.len() ==> text[i] != c,
    decreases text.len(),
{
    if text.len() > 0 && text.last() != c {
        let front = text.drop_last();
        lemma_last_index_of(front, c);
        assert forall|i: int| last_index_of(text, c) < i < text.len() implies text[i] != c by {
            if i < front.len() {
                assert(front[i] == text[i]);
            }
        }
    }
}

/// The length of `path` without the separators and the `.` components that
/// it ends in.
pub open spec fn trimmed_len(path: Seq<char>) -> nat
    decreases path.len(),
{
    if path.len() > 0 && path.last() == SEPARATOR {
        trimmed_len(path.drop_last())
    } else if path.len() >= 2 && path.last() == '.' && path[path.len() - 2] == SEPARATOR {
        trimmed_len(path.take(path.len() - 2))
    } else {
        path.len()
    }
}

/// The last component of `path`: what stands behind the last separator, once
/// trailing separators and `.` components are dropped. Empty where the path
/// has no component.
pub open spec fn file_name(path: Seq<char>) -> Seq<char> {
    let trimmed = path.take(trimmed_len(path) as int);
    trimmed.skip(last_index_of(trimmed, SEPARATOR) + 1)
}

/// The extension of a file name: what stands behind its last dot. A name
/// without a dot, one whose only dot is its first character, and `..` have
/// none.
pub open spec fn name_extension(name: Seq<char>) -> Option<Seq<char>> {
    let dot = last_index_of(name, '.');
    if dot <= 0 || name == seq!['.', '.'] {
        None
    } else {
        Some(name.skip(dot + 1))
    }
}

/// The extension of the last component of `path`.
pub open spec fn extension(path: Seq<char>) -> Option<Seq<char>> {
    name_extension(file_name(path))
}

/// `trimmed_len` is at most the length of the path.
pub proof fn lemma_trimmed_len_bound(path: Seq<char>)
    ensures
        trimmed_len(path) <= path.len(),
    decreases path.len(),
{
    if path.len() > 0 && path.last() == SEPARATOR {
        lemma_trimmed_len_bound(path.drop_last());
    } else if path.len() >= 2 && path.last() == '.' && path[path.len() - 2] == SEPARATOR {
        lemma_trimmed_len_bound(path.take(path.len() - 2));
    }
}

/// Finds the last `c` among the first `end` characters of `text`.
fn find_last(text: &str, end: usize, c: char) -> (found: Option<usize>)
    requires
        end <= text@.len(),
    ensures
        match found {
            Some(i) => i == last_index_of(text@.take(end as int), c),
            None => last_index_of(text@.take(end as int), c) == -1,
        },
{
    let mut i: usize = end;
    while i > 0
        invariant
            i <= end <= text@.len(),
            last_index_of(text@.take(end as int), c) == last_index_of(text@.take(i as int), c),
        decreases i,
    {
        if text.get_char(i - 1) == c {
            return Some(i - 1);
        }
        assert(text@.take(i as int).drop_last() =~= text@.take(i - 1));
        i -= 1;
    }
    None
}

/// Measures `path` without the separators and `.` components that it ends in.
fn trim_end(path: &str) -> (end: usize)
    ensures
        end == trimmed_len(path@),
        end <= path@.len(),
{
    let mut end: usize = path.unicode_len();
    proof {
        assert(path@.take(end as int) =~= path@);
        lemma_trimmed_len_bound(path@);
    }
    loop
        invariant
            end <= path@.len(),
            trimmed_len(path@) == trimmed_len(path@.take(end as int)),
        ensures
            end <= path@.len(),
            end == trimmed_len(path@),
        decreases end,
    {
        if end > 0 && path.get_char(end - 1) == SEPARATOR {
            assert(path@.take(end as int).drop_last() =~= path@.take(end - 1));
            end -= 1;
        } else if end >= 2 && path.get_char(end - 1) == '.' && path.get_char(end - 2)
            == SEPARATOR {
            assert(path@.take(end as int).take(end - 2) =~= path@.take(end - 2));
            end -= 2;
        } else {
            break ;
        }
    }
    end
}

/// The extension of the last component of `path`, if it has one.
pub fn path_extension(path: &str) -> (found: Option<String>)
    ensures
        match found {
            Some(text) => extension(path@) == Some(text@),
            None => extension(path@).is_none(),
        },
{
    let end: usize = trim_end(path);
    proof {
        lemma_last_index_of(path@.take(end as int), SEPARATOR);
    }
    let start: usize = match find_last(path, end, SEPARATOR) {
        Some(i) => i + 1,
        None => 0,
    };
    let name: &str = path.substring_char(start, end);
    assert(name@ =~= file_name(path@));
    let name_len: usize = end - start;
    proof {
        assert(name@.take(name_len as int) =~= name@);
        lemma_last_index_of(name@, '.');
    }
    match find_last(name, name_len, '.') {
        Some(dot) => {
            if dot == 0 || (name_len == 2 && name.get_char(0) == '.') {
                assert(dot > 0 ==> name@ =~= seq!['.', '.']);
                None
            } else {
                assert(name@ != seq!['.', '.']) by {
                    if name@ == seq!['.', '.'] {
                        assert(name@.len() == 2);
                        assert(name@[0] == seq!['.', '.'][0]);
                    }
                }
                let text: &str = name.substring_char(dot + 1, name_len);
                assert(text@ =~= name@.skip(dot + 1));
                Some(text.to_owned())
            }
        },
        None => None,
    }
}

} // verus!
