//! File names as they come with documents: the last component of a name
//! that may hold `/`, and the extension of that component.

use vstd::prelude::*;
use crate::text::{chars_of, push_chars, text_of};

verus! {

/// The index of the last occurrence of `c` in `s`, or `-1` where there is
/// none.
pub open spec fn last_index_of(s: Seq<char>, c: char) -> int
    decreases s.len(),
{
    if s.len() == 0 {
        -1
    } else if s.last() == c {
        s.len() - 1
    } else {
        last_index_of(s.drop_last(), c)
    }
}

/// Whether a name ends in something that names no component: a `/`, or a
/// component that is just `.`.
pub open spec fn ends_idly(s: Seq<char>) -> bool {
    s.len() > 0 && (s.last() == '/' || (s.last() == '.' && (s.len() == 1 || s[s.len() - 2]
        == '/')))
}

/// A name without the separators and `.` components that end it.
pub open spec fn without_tail(s: Seq<char>) -> Seq<char>
    decreases s.len(),
{
    if ends_idly(s) {
        without_tail(s.drop_last())
    } else {
        s
    }
}

/// The last component of a name: what follows the last `/` once the idle
/// tail is gone. Empty where the name has no component at all.
pub open spec fn last_component(s: Seq<char>) -> Seq<char> {
    let t = without_tail(s);
    t.skip(last_index_of(t, '/') + 1)
}

/// The file name in a name: its last component, unless there is none or it
/// is `..`.
pub open spec fn file_name(s: Seq<char>) -> Option<Seq<char>> {
    let p = last_component(s);
    if p.len() == 0 || p == seq!['.', '.'] {
        None
    } else {
        Some(p)
    }
}

/// The extension of a name: what follows the last `.` of its file name,
/// provided the file name has a `.` that is not its first character.
pub open spec fn extension(s: Seq<char>) -> Option<Seq<char>> {
    match file_name(s) {
        None => None,
        Some(p) => {
            let d = last_index_of(p, '.');
            if d <= 0 {
                None
            } else {
                Some(p.skip(d + 1))
            }
        },
    }
}

/// `last_index_of` is the one index that holds `c` with no `c` after it.
pub proof fn lemma_last_index_of(s: Seq<char>, c: char, k: int)
    requires
        -1 <= k < s.len(),
        k >= 0 ==> s[k] == c,
        forall|i: int| k < i < s.len() ==> s[i] != c,
    ensures
        last_index_of(s, c) == k,
    decreases s.len(),
{
    if s.len() > 0 && k < s.len() - 1 {
        lemma_last_index_of(s.drop_last(), c, k);
    }
}

/// The extension of a file name given as text.
pub fn extension_of_name(name: &str) -> (r: Option<String>)
    ensures
        text_of(r) == extension(name@),
{
    let chars = chars_of(name);
    let mut end: usize = chars.len();
    assert(chars@.take(end as int) == chars@);
    while end > 0 && (chars[end - 1] == '/' || (chars[end - 1] == '.' && (end == 1 || chars[end
        - 2] == '/')))
        invariant
            end <= chars.len(),
            without_tail(chars@) == without_tail(chars@.take(end as int)),
        decreases end,
    {
        assert(ends_idly(chars@.take(end as int)));
        assert(chars@.take(end as int).drop_last() == chars@.take(end - 1));
        end -= 1;
    }
    let ghost t = chars@.take(end as int);
    assert(!ends_idly(t));
    assert(without_tail(chars@) == t);
    let mut start: usize = end;
    while start > 0 && chars[start - 1] != '/'
        invariant
            start <= end <= chars.len(),
            forall|i: int| start <= i < end ==> chars@[i] != '/',
        decreases start,
    {
        start -= 1;
    }
    proof {
        lemma_last_index_of(t, '/', start - 1);
    }
    let ghost p = last_component(chars@);
    assert(p == chars@.subrange(start as int, end as int));
    if start == end {
        return None;
    }
    if end - start == 2 && chars[start] == '.' && chars[start + 1] == '.' {
        assert(p =~= seq!['.', '.']);
        return None;
    }
    assert(p != seq!['.', '.']) by {
        if p == seq!['.', '.'] {
            assert(p.len() == 2);
            assert(p[0] == '.' && p[1] == '.');
        }
    }
    let mut dot: usize = end;
    while dot > start && chars[dot - 1] != '.'
        invariant
            start <= dot <= end <= chars.len(),
            forall|i: int| dot <= i < end ==> chars@[i] != '.',
        decreases dot,
    {
        dot -= 1;
    }
    proof {
        lemma_last_index_of(p, '.', dot - 1 - start);
    }
    if dot == start || dot - 1 == start {
        return None;
    }
    let mut out = String::new();
    push_chars(&mut out, &chars, dot, end);
    assert(chars@.subrange(dot as int, end as int) == p.skip(dot - start));
    Some(out)
}

} // verus!
