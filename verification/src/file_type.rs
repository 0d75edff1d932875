//! File types, told from the extension of a path without regard to case.

use crate::path::{chars_of, component_start, extension, extension_range, file_name, last_index_of, lemma_last_index_of};
use vstd::prelude::*;

verus! {

/// What kind of file a path names, as far as its extension tells.
#[derive(Debug, Clone, Copy, PartialEq, Eq, Structural)]
pub enum FileType {
    /// Plain text: `txt` or `text`.
    Txt,
    /// A log file: `log`.
    Log,
    /// Structured data: `json`.
    Json,
    /// Structured data: `csv`.
    Csv,
    /// Structured data: `xml`.
    Xml,
    /// An archive made earlier: `gz`.
    Gz,
    /// An archive made earlier: `tar`.
    Tar,
    /// An archive made earlier: `zip`.
    Zip,
    /// No extension, or one that is not in the table.
    Unknown,
}

/// `c` with an ASCII capital letter replaced by its small letter.
pub open spec fn lower(c: char) -> char {
    if 'A' <= c && c <= 'Z' {
        ((c as u8) + 32) as char
    } else {
        c
    }
}

/// `s` with every ASCII capital letter replaced by its small letter.
pub open spec fn lowered(s: Seq<char>) -> Seq<char> {
    Seq::new(s.len(), |i: int| lower(s[i]))
}

/// Whether `a` and `b` differ at most in the case of ASCII letters.
pub open spec fn same_ignoring_case(a: Seq<char>, b: Seq<char>) -> bool {
    &&& a.len() == b.len()
    &&& forall|i: int| 0 <= i < a.len() ==> lower(#[trigger] a[i]) == lower(b[i])
}

impl FileType {
    /// The name under which this type is reported.
    pub open spec fn name(self) -> Seq<char> {
        match self {
            FileType::Txt => seq!['t', 'x', 't'],
            FileType::Log => seq!['l', 'o', 'g'],
            FileType::Json => seq!['j', 's', 'o', 'n'],
            FileType::Csv => seq!['c', 's', 'v'],
            FileType::Xml => seq!['x', 'm', 'l'],
            FileType::Gz => seq!['g', 'z'],
            FileType::Tar => seq!['t', 'a', 'r'],
            FileType::Zip => seq!['z', 'i', 'p'],
            FileType::Unknown => seq!['u', 'n', 'k', 'n', 'o', 'w', 'n'],
        }
    }

    /// Whether files of this type are archives that an earlier rotation left.
    pub open spec fn is_archive(self) -> bool {
        self == FileType::Gz || self == FileType::Tar || self == FileType::Zip
    }

    /// The type that the extension `ext` stands for: the fixed table, read
    /// without regard to case.
    pub open spec fn of_extension(ext: Seq<char>) -> FileType {
        let e = lowered(ext);
        if e == seq!['t', 'x', 't'] || e == seq!['t', 'e', 'x', 't'] {
            FileType::Txt
        } else if e == seq!['l', 'o', 'g'] {
            FileType::Log
        } else if e == seq!['j', 's', 'o', 'n'] {
            FileType::Json
        } else if e == seq!['c', 's', 'v'] {
            FileType::Csv
        } else if e == seq!['x', 'm', 'l'] {
            FileType::Xml
        } else if e == seq!['g', 'z'] {
            FileType::Gz
        } else if e == seq!['t', 'a', 'r'] {
            FileType::Tar
        } else if e == seq!['z', 'i', 'p'] {
            FileType::Zip
        } else {
            FileType::Unknown
        }
    }

    /// The type of the file that `path` names: that of its extension, and
    /// `Unknown` where it has none.
    pub open spec fn of_path(path: Seq<char>) -> FileType {
        match extension(path) {
            Some(ext) => FileType::of_extension(ext),
            None => FileType::Unknown,
        }
    }

    /// The name under which this type is reported.
    pub fn to_string(&self) -> (text: String)
        ensures
            text@ == self.name(),
    {
        proof {
            reveal_strlit("txt");
            reveal_strlit("log");
            reveal_strlit("json");
            reveal_strlit("csv");
            reveal_strlit("xml");
            reveal_strlit("gz");
            reveal_strlit("tar");
            reveal_strlit("zip");
            reveal_strlit("unknown");
        }
        match self {
            FileType::Txt => "txt".to_owned(),
            FileType::Log => "log".to_owned(),
            FileType::Json => "json".to_owned(),
            FileType::Csv => "csv".to_owned(),
            FileType::Xml => "xml".to_owned(),
            FileType::Gz => "gz".to_owned(),
            FileType::Tar => "tar".to_owned(),
            FileType::Zip => "zip".to_owned(),
            FileType::Unknown => "unknown".to_owned(),
        }
    }

    /// Whether files of this type are archives that an earlier rotation left.
    pub fn is_archive_type(&self) -> (r: bool)
        ensures
            r == self.is_archive(),
    {
        match self {
            FileType::Gz | FileType::Tar | FileType::Zip => true,
            _ => false,
        }
    }

    /// Reads an extension as a file type. The reading never fails: what the
    /// table does not hold is `Unknown`.
    pub fn from_str(s: &str) -> (r: Result<FileType, String>)
        ensures
            r == Ok::<FileType, String>(FileType::of_extension(s@)),
    {
        let chars = chars_of(s);
        assert(chars@.subrange(0, chars@.len() as int) =~= chars@);
        Ok(type_of_extension(&chars, 0, chars.len()))
    }

    /// The type of the file that `file_path` names.
    pub fn classify(file_path: &str) -> (r: FileType)
        ensures
            r == FileType::of_path(file_path@),
    {
        let chars = chars_of(file_path);
        match extension_range(&chars) {
            Some((start, end)) => type_of_extension(&chars, start, end),
            None => FileType::Unknown,
        }
    }
}

/// `c` with an ASCII capital letter replaced by its small letter.
fn to_lower(c: char) -> (r: char)
    ensures
        r == lower(c),
{
    if 'A' <= c && c <= 'Z' {
        ((c as u8) + 32) as char
    } else {
        c
    }
}

fn is_word2(v: &Vec<char>, a: char, b: char) -> (r: bool)
    ensures
        r == (v@ == seq![a, b]),
{
    let r = v.len() == 2 && v[0] == a && v[1] == b;
    proof {
        if r {
            assert(v@ =~= seq![a, b]);
        }
    }
    r
}

fn is_word3(v: &Vec<char>, a: char, b: char, c: char) -> (r: bool)
    ensures
        r == (v@ == seq![a, b, c]),
{
    let r = v.len() == 3 && v[0] == a && v[1] == b && v[2] == c;
    proof {
        if r {
            assert(v@ =~= seq![a, b, c]);
        }
    }
    r
}

fn is_word4(v: &Vec<char>, a: char, b: char, c: char, d: char) -> (r: bool)
    ensures
        r == (v@ == seq![a, b, c, d]),
{
    let r = v.len() == 4 && v[0] == a && v[1] == b && v[2] == c && v[3] == d;
    proof {
        if r {
            assert(v@ =~= seq![a, b, c, d]);
        }
    }
    r
}

/// The type that the extension `v[start..end]` stands for.
fn type_of_extension(v: &Vec<char>, start: usize, end: usize) -> (r: FileType)
    requires
        start <= end <= v.len(),
    ensures
        r == FileType::of_extension(v@.subrange(start as int, end as int)),
{
    let mut e: Vec<char> = Vec::new();
    let mut i: usize = start;
    while i < end
        invariant
            start <= i <= end <= v.len(),
            e@ == lowered(v@.subrange(start as int, i as int)),
        decreases end - i,
    {
        e.push(to_lower(v[i]));
        i = i + 1;
    }
    if is_word3(&e, 't', 'x', 't') || is_word4(&e, 't', 'e', 'x', 't') {
        FileType::Txt
    } else if is_word3(&e, 'l', 'o', 'g') {
        FileType::Log
    } else if is_word4(&e, 'j', 's', 'o', 'n') {
        FileType::Json
    } else if is_word3(&e, 'c', 's', 'v') {
        FileType::Csv
    } else if is_word3(&e, 'x', 'm', 'l') {
        FileType::Xml
    } else if is_word2(&e, 'g', 'z') {
        FileType::Gz
    } else if is_word3(&e, 't', 'a', 'r') {
        FileType::Tar
    } else if is_word3(&e, 'z', 'i', 'p') {
        FileType::Zip
    } else {
        FileType::Unknown
    }
}

/// The name under which the type of the file at `file_path` is reported.
pub fn get_file_extension(file_path: &str) -> (text: String)
    ensures
        text@ == FileType::of_path(file_path@).name(),
{
    FileType::classify(file_path).to_string()
}

/// A character that is no ASCII letter stands at the same places in two
/// texts that differ only in case.
proof fn lemma_last_index_ignores_case(a: Seq<char>, b: Seq<char>, c: char)
    requires
        same_ignoring_case(a, b),
        !('A' <= c && c <= 'Z'),
        !('a' <= c && c <= 'z'),
    ensures
        last_index_of(a, c) == last_index_of(b, c),
    decreases a.len(),
{
    if a.len() > 0 && a.last() != c {
        let a1 = a.drop_last();
        let b1 = b.drop_last();
        assert forall|i: int| 0 <= i < a1.len() implies lower(#[trigger] a1[i]) == lower(b1[i]) by {}
        lemma_last_index_ignores_case(a1, b1, c);
    }
}

proof fn lemma_subrange_ignores_case(a: Seq<char>, b: Seq<char>, from: int, to: int)
    requires
        same_ignoring_case(a, b),
        0 <= from <= to <= a.len(),
    ensures
        same_ignoring_case(a.subrange(from, to), b.subrange(from, to)),
{
    let a1 = a.subrange(from, to);
    let b1 = b.subrange(from, to);
    assert forall|i: int| 0 <= i < a1.len() implies lower(#[trigger] a1[i]) == lower(b1[i]) by {}
}

/// Texts that differ only in case are the words `.` and `..` together.
proof fn lemma_dots_ignore_case(a: Seq<char>, b: Seq<char>)
    requires
        same_ignoring_case(a, b),
    ensures
        a == seq!['.'] <==> b == seq!['.'],
        a == seq!['.', '.'] <==> b == seq!['.', '.'],
{
    let one = seq!['.'];
    let two = seq!['.', '.'];
    if a == one {
        assert(b =~= one);
    }
    if b == one {
        assert(a =~= one);
    }
    if a == two {
        assert(b =~= two);
    }
    if b == two {
        assert(a =~= two);
    }
}

/// Paths that differ only in case have file names that differ only in case.
proof fn lemma_file_name_ignores_case(p: Seq<char>, q: Seq<char>)
    requires
        same_ignoring_case(p, q),
    ensures
        file_name(p) is Some <==> file_name(q) is Some,
        file_name(p) is Some ==> same_ignoring_case(file_name(p).unwrap(), file_name(q).unwrap()),
    decreases p.len(),
{
    if p.len() > 0 {
        lemma_last_index_ignores_case(p, q, '/');
        lemma_last_index_of(p, '/');
        let start: int = component_start(p);
        let last_p = p.subrange(start, p.len() as int);
        let last_q = q.subrange(start, q.len() as int);
        lemma_subrange_ignores_case(p, q, start, p.len() as int);
        lemma_dots_ignore_case(last_p, last_q);
        if last_p.len() == 0 || last_p == seq!['.'] {
            if 0 < start {
                lemma_subrange_ignores_case(p, q, 0, start - 1);
                lemma_file_name_ignores_case(p.subrange(0, start - 1), q.subrange(0, start - 1));
            }
        }
    }
}

/// Classification does not look at the case of ASCII letters: two paths that
/// differ in nothing else have the same type.
pub proof fn lemma_classification_ignores_case(p: Seq<char>, q: Seq<char>)
    requires
        same_ignoring_case(p, q),
    ensures
        FileType::of_path(p) == FileType::of_path(q),
{
    lemma_file_name_ignores_case(p, q);
    if file_name(p) is Some {
        let name_p = file_name(p).unwrap();
        let name_q = file_name(q).unwrap();
        lemma_last_index_ignores_case(name_p, name_q, '.');
        lemma_last_index_of(name_p, '.');
        match last_index_of(name_p, '.') {
            Some(i) => {
                if i != 0 {
                    lemma_subrange_ignores_case(name_p, name_q, i + 1, name_p.len() as int);
                    let ext_p = name_p.subrange(i + 1, name_p.len() as int);
                    let ext_q = name_q.subrange(i + 1, name_q.len() as int);
                    assert(lowered(ext_p) =~= lowered(ext_q));
                }
            },
            None => {},
        }
    }
}

/// An extension means the same in capitals as in small letters.
pub proof fn lemma_extension_ignores_case(a: Seq<char>, b: Seq<char>)
    requires
        same_ignoring_case(a, b),
    ensures
        FileType::of_extension(a) == FileType::of_extension(b),
{
    assert(lowered(a) =~= lowered(b));
}

} // verus!
