//! File names and extensions, read off the bytes of a path.
//!
//! A path is split at `/`. Empty components and `.` components do not count,
//! so the file name is the last component that is neither. The extension is
//! what follows the last `.` of the file name, provided that dot is not the
//! name's first byte.

use vstd::prelude::*;

verus! {

/// The byte that separates the components of a path.
pub const SEPARATOR: u8 = 47;

/// The byte that introduces an extension.
pub const DOT: u8 = 46;

/// Index of the last occurrence of `b` in `s`, or -1 if there is none.
pub open spec fn last_index_of(s: Seq<u8>, b: u8) -> int
    decreases s.len(),
{
    if s.len() == 0 {
        -1
    } else if s.last() == b {
        s.len() - 1
    } else {
        last_index_of(s.drop_last(), b)
    }
}

/// Whether `path` ends in a separator or in a `.` component.
pub open spec fn ends_in_skipped(path: Seq<u8>) -> bool {
    path.len() > 0 && (path.last() == SEPARATOR || (path.last() == DOT && (path.len() == 1
        || path[path.len() - 2] == SEPARATOR)))
}

/// `path` without its trailing separators and `.` components.
pub open spec fn trimmed(path: Seq<u8>) -> Seq<u8>
    decreases path.len(),
{
    if ends_in_skipped(path) {
        trimmed(path.drop_last())
    } else {
        path
    }
}

/// The last component of `path` that is neither empty nor `.`; empty if there
/// is none.
pub open spec fn final_component(path: Seq<u8>) -> Seq<u8> {
    let t = trimmed(path);
    t.subrange(last_index_of(t, SEPARATOR) + 1, t.len() as int)
}

/// The file name of `path`: its final component, unless that is missing or `..`.
pub open spec fn file_name(path: Seq<u8>) -> Option<Seq<u8>> {
    let name = final_component(path);
    if name.len() == 0 || name == seq![DOT, DOT] {
        None
    } else {
        Some(name)
    }
}

/// The extension of `path`: the part of the file name after its last dot.
/// There is none if there is no file name, if the name holds no dot, or if its
/// only dot is its first byte.
pub open spec fn extension(path: Seq<u8>) -> Option<Seq<u8>> {
    match file_name(path) {
        None => None,
        Some(name) => {
            let dot = last_index_of(name, DOT);
            if dot <= 0 {
                None
            } else {
                Some(name.subrange(dot + 1, name.len() as int))
            }
        },
    }
}

/// `last_index_of` is -1 exactly when the byte does not occur, and otherwise
/// names an occurrence after which there is no other.
pub proof fn lemma_last_index_of(s: Seq<u8>, b: u8)
    ensures
        -1 <= last_index_of(s, b) < s.len(),
        last_index_of(s, b) >= 0 ==> s[last_index_of(s, b)] == b,
        forall|j: int| last_index_of(s, b) < j < s.len() ==> s[j] != b,
    decreases s.len(),
{
    if s.len() > 0 && s.last() != b {
        let rest = s.drop_last();
        lemma_last_index_of(rest, b);
        assert forall|j: int| last_index_of(s, b) < j < s.len() implies s[j] != b by {
            if j < rest.len() {
                assert(rest[j] == s[j]);
            }
        }
    }
}

/// An index that holds `b` with no `b` after it is the last index of `b`; so is
/// -1 when `b` occurs nowhere.
pub proof fn lemma_last_index_unique(s: Seq<u8>, b: u8, i: int)
    requires
        -1 <= i < s.len(),
        i >= 0 ==> s[i] == b,
        forall|j: int| i < j < s.len() ==> s[j] != b,
    ensures
        last_index_of(s, b) == i,
{
    lemma_last_index_of(s, b);
}

/// The range of `bytes` that holds the extension, if there is one.
pub fn extension_range(bytes: &[u8]) -> (range: Option<(usize, usize)>)
    ensures
        match range {
            Some((from, to)) => from <= to <= bytes@.len() && extension(bytes@) == Some(
                bytes@.subrange(from as int, to as int),
            ),
            None => extension(bytes@) is None,
        },
{
    let mut end: usize = bytes.len();
    assert(bytes@.take(end as int) =~= bytes@);
    while end > 0 && (bytes[end - 1] == SEPARATOR || (bytes[end - 1] == DOT && (end == 1
        || bytes[end - 2] == SEPARATOR)))
        invariant
            end <= bytes@.len(),
            trimmed(bytes@) == trimmed(bytes@.take(end as int)),
        decreases end,
    {
        assert(bytes@.take(end as int).drop_last() == bytes@.take(end - 1));
        end = end - 1;
    }
    let ghost t = bytes@.take(end as int);

    let mut start: usize = end;
    while start > 0 && bytes[start - 1] != SEPARATOR
        invariant
            start <= end <= bytes@.len(),
            forall|j: int| start <= j < end ==> bytes@[j] != SEPARATOR,
        decreases start,
    {
        start = start - 1;
    }
    proof {
        lemma_last_index_unique(t, SEPARATOR, start as int - 1);
    }
    let ghost name = t.subrange(start as int, end as int);

    if start == end {
        return None;
    }
    if end - start == 2 && bytes[start] == DOT && bytes[start + 1] == DOT {
        assert(name == seq![DOT, DOT]);
        return None;
    }
    assert(name != seq![DOT, DOT]) by {
        if name.len() == 2 {
            assert(name[0] != DOT || name[1] != DOT);
        }
    }

    let mut dot: usize = end;
    while dot > start && bytes[dot - 1] != DOT
        invariant
            start <= dot <= end <= bytes@.len(),
            forall|j: int| dot <= j < end ==> bytes@[j] != DOT,
        decreases dot,
    {
        dot = dot - 1;
    }
    proof {
        lemma_last_index_unique(name, DOT, dot as int - 1 - start as int);
    }
    if dot <= start + 1 {
        return None;
    }
    assert(name.subrange(dot as int - start as int, name.len() as int) == bytes@.subrange(
        dot as int,
        end as int,
    ));
    Some((dot, end))
}

/// Whether the extension of `path` is exactly `wanted`, byte for byte.
pub fn has_extension(path: &[u8], wanted: &[u8]) -> (same: bool)
    ensures
        same == (extension(path@) == Some(wanted@)),
{
    match extension_range(path) {
        None => false,
        Some((from, to)) => {
            let ghost found = path@.subrange(from as int, to as int);
            if to - from != wanted.len() {
                return false;
            }
            let mut i: usize = 0;
            while i < wanted.len()
                invariant
                    from <= to <= path@.len(),
                    to - from == wanted@.len(),
                    i <= wanted@.len(),
                    found == path@.subrange(from as int, to as int),
                    extension(path@) == Some(found),
                    forall|j: int| 0 <= j < i ==> found[j] == wanted@[j],
                decreases wanted@.len() - i,
            {
                if path[from + i] != wanted[i] {
                    return false;
                }
                i = i + 1;
            }
            assert(found =~= wanted@);
            true
        },
    }
}

} // verus!
