//! The last component of a path and its extension, read from the characters
//! of the path alone. Components are separated by `/`.

use vstd::prelude::*;

verus! {

/// The greatest position at which `c` stands in `s`, if it stands there at all.
pub open spec fn last_index_of(s: Seq<char>, c: char) -> Option<int>
    decreases s.len(),
{
    if s.len() == 0 {
        None
    } else if s.last() == c {
        Some(s.len() - 1)
    } else {
        last_index_of(s.drop_last(), c)
    }
}

/// Where the text after the last `/` of `p` begins: 0 where `p` has no `/`.
pub open spec fn component_start(p: Seq<char>) -> int {
    match last_index_of(p, '/') {
        Some(i) => i + 1,
        None => 0,
    }
}

/// The file name of a path: its last component, where empty components and
/// `.` are passed over from the end. A path that has no component left, or
/// whose last one is `..`, has no file name.
pub open spec fn file_name(p: Seq<char>) -> Option<Seq<char>>
    decreases p.len(),
{
    if p.len() == 0 {
        None
    } else {
        let start = component_start(p);
        let last = p.subrange(start, p.len() as int);
        if last.len() == 0 || last == seq!['.'] {
            if 0 < start <= p.len() {
                file_name(p.subrange(0, start - 1))
            } else {
                None
            }
        } else if last == seq!['.', '.'] {
            None
        } else {
            Some(last)
        }
    }
}

/// The extension of a file name: what follows its last `.`, unless the name
/// has no `.` or only the one it begins with.
pub open spec fn extension_of_name(name: Seq<char>) -> Option<Seq<char>> {
    match last_index_of(name, '.') {
        Some(i) => if i == 0 {
            None
        } else {
            Some(name.subrange(i + 1, name.len() as int))
        },
        None => None,
    }
}

/// The extension of a path: that of its file name.
pub open spec fn extension(p: Seq<char>) -> Option<Seq<char>> {
    match file_name(p) {
        Some(name) => extension_of_name(name),
        None => None,
    }
}

/// `last_index_of` finds an occurrence of `c`, and none stands after it.
pub proof fn lemma_last_index_of(s: Seq<char>, c: char)
    ensures
        match last_index_of(s, c) {
            Some(i) => 0 <= i < s.len() && s[i] == c && forall|j: int|
                i < j < s.len() ==> s[j] != c,
            None => forall|j: int| 0 <= j < s.len() ==> s[j] != c,
        },
    decreases s.len(),
{
    if s.len() > 0 && s.last() != c {
        lemma_last_index_of(s.drop_last(), c);
        assert forall|j: int| 0 <= j < s.len() - 1 implies s.drop_last()[j] == s[j] by {}
    }
}

/// The last occurrence of `c` in `s` is at `i` where `c` stands at `i` and
/// nowhere after it.
pub proof fn lemma_last_index_is(s: Seq<char>, c: char, i: int)
    requires
        0 <= i < s.len(),
        s[i] == c,
        forall|j: int| i < j < s.len() ==> s[j] != c,
    ensures
        last_index_of(s, c) == Some(i),
{
    lemma_last_index_of(s, c);
}

/// A text in which `c` stands nowhere has no last occurrence of it.
pub proof fn lemma_last_index_is_none(s: Seq<char>, c: char)
    requires
        forall|j: int| 0 <= j < s.len() ==> s[j] != c,
    ensures
        last_index_of(s, c) is None,
{
    lemma_last_index_of(s, c);
}

/// Whether `name` is one plain component of a path: not empty, neither `.`
/// nor `..`, and without a `/`.
pub open spec fn is_plain_component(name: Seq<char>) -> bool {
    &&& name.len() > 0
    &&& name != seq!['.']
    &&& name != seq!['.', '.']
    &&& forall|j: int| 0 <= j < name.len() ==> name[j] != '/'
}

/// A file name is one plain component. An archive entry that is named by it
/// is unpacked into the directory of the archive itself, never above or
/// below it.
pub proof fn lemma_file_name_is_component(p: Seq<char>)
    ensures
        file_name(p) is Some ==> is_plain_component(file_name(p).unwrap()),
    decreases p.len(),
{
    if p.len() > 0 {
        lemma_last_index_of(p, '/');
        let start: int = component_start(p);
        let last = p.subrange(start, p.len() as int);
        if last.len() == 0 || last == seq!['.'] {
            if 0 < start {
                lemma_file_name_is_component(p.subrange(0, start - 1));
            }
        }
    }
}

/// The characters of `s`, in order.
pub(crate) fn chars_of(s: &str) -> (v: Vec<char>)
    ensures
        v@ == s@,
{
    let mut v: Vec<char> = Vec::new();
    for c in it: s.chars()
        invariant
            v@ == it.seq().take(it.index() as int),
    {
        v.push(c);
    }
    v
}

/// The greatest position of `c` among `v[from..to]`, counted from the start
/// of `v`.
pub(crate) fn find_last(v: &Vec<char>, from: usize, to: usize, c: char) -> (r: Option<usize>)
    requires
        from <= to <= v.len(),
    ensures
        match r {
            Some(i) => from <= i < to && last_index_of(v@.subrange(from as int, to as int), c)
                == Some(i - from),
            None => last_index_of(v@.subrange(from as int, to as int), c) is None,
        },
{
    let mut i: usize = to;
    while i > from
        invariant
            from <= i <= to <= v.len(),
            last_index_of(v@.subrange(from as int, to as int), c) == last_index_of(
                v@.subrange(from as int, i as int),
                c,
            ),
        decreases i,
    {
        let ghost cur = v@.subrange(from as int, i as int);
        assert(cur.drop_last() =~= v@.subrange(from as int, i - 1));
        if v[i - 1] == c {
            return Some(i - 1);
        }
        i = i - 1;
    }
    None
}

/// The bounds of the file name of the path `v`, as positions in `v`.
pub(crate) fn file_name_range(v: &Vec<char>) -> (r: Option<(usize, usize)>)
    ensures
        match r {
            Some((start, end)) => start < end <= v.len() && file_name(v@) == Some(
                v@.subrange(start as int, end as int),
            ),
            None => file_name(v@) is None,
        },
{
    let mut end: usize = v.len();
    assert(v@.subrange(0, end as int) =~= v@);
    while end > 0
        invariant
            end <= v.len(),
            file_name(v@) == file_name(v@.subrange(0, end as int)),
        decreases end,
    {
        let ghost p = v@.subrange(0, end as int);
        let start: usize = match find_last(v, 0, end, '/') {
            Some(i) => i + 1,
            None => 0,
        };
        let len: usize = end - start;
        if len == 0 || (len == 1 && v[start] == '.') {
            proof {
                let last = p.subrange(start as int, end as int);
                if len == 1 {
                    assert(last =~= seq!['.']);
                }
                if start > 0 {
                    assert(p.subrange(0, start - 1) =~= v@.subrange(0, start - 1));
                }
            }
            if start == 0 {
                return None;
            }
            end = start - 1;
        } else if len == 2 && v[start] == '.' && v[start + 1] == '.' {
            proof {
                let last = p.subrange(start as int, end as int);
                assert(last =~= seq!['.', '.']);
            }
            return None;
        } else {
            proof {
                let last = p.subrange(start as int, end as int);
                assert(last[0] == v@[start as int]);
                if last == seq!['.', '.'] {
                    assert(last[1] == '.');
                }
            }
            return Some((start, end));
        }
    }
    None
}

/// The bounds of the extension of the path `v`, as positions in `v`.
pub(crate) fn extension_range(v: &Vec<char>) -> (r: Option<(usize, usize)>)
    ensures
        match r {
            Some((start, end)) => start <= end <= v.len() && extension(v@) == Some(
                v@.subrange(start as int, end as int),
            ),
            None => extension(v@) is None,
        },
{
    match file_name_range(v) {
        None => None,
        Some((start, end)) => {
            let ghost name = v@.subrange(start as int, end as int);
            match find_last(v, start, end, '.') {
                None => None,
                Some(dot) => {
                    if dot == start {
                        None
                    } else {
                        assert(name.subrange(dot - start + 1, name.len() as int) =~= v@.subrange(
                            dot + 1,
                            end as int,
                        ));
                        Some((dot + 1, end))
                    }
                },
            }
        },
    }
}

/// The file name of `path`, if it has one.
pub fn base_name(path: &str) -> (name: Option<String>)
    ensures
        name is Some <==> file_name(path@) is Some,
        name is Some ==> file_name(path@) == Some(name.unwrap()@),
        name is Some ==> is_plain_component(name.unwrap()@),
{
    proof {
        lemma_file_name_is_component(path@);
    }
    let chars = chars_of(path);
    match file_name_range(&chars) {
        Some((start, end)) => Some(path.substring_char(start, end).to_owned()),
        None => None,
    }
}

} // verus!
