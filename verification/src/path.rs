//! File-system paths held as text: joining a directory with a name, and
//! splitting a file name into stem and extension.

use vstd::prelude::*;

verus! {

/// Calls `dirs::home_dir`, rendered as text; what it returns depends on the
/// environment and the system, so nothing is stated of it.
#[verifier::external_body]
pub(crate) fn home_dir() -> (h: Option<String>)
{
    dirs::home_dir().map(|p| p.to_string_lossy().into_owned())
}

/// The path that `Path::join` makes of `dir` and `name` on Unix: `name` alone
/// when it is absolute or `dir` is empty, else the two with one `/` between.
pub open spec fn joined(dir: Seq<char>, name: Seq<char>) -> Seq<char> {
    if name.len() > 0 && name[0] == '/' {
        name
    } else if dir.len() == 0 {
        name
    } else if dir.last() == '/' {
        dir + name
    } else {
        dir + "/"@ + name
    }
}

/// Joins `name` onto the directory `dir`.
pub fn join_path(dir: &str, name: &str) -> (p: String)
    ensures
        p@ == joined(dir@, name@),
{
    proof { reveal_strlit("/"); }
    let nlen = name.unicode_len();
    if nlen > 0 && name.get_char(0) == '/' {
        return String::from_str(name);
    }
    let dlen = dir.unicode_len();
    if dlen == 0 {
        return String::from_str(name);
    }
    let mut p = String::from_str(dir);
    if dir.get_char(dlen - 1) != '/' {
        p.append("/");
    }
    p.append(name);
    p
}

/// The position of the last `c` in `s`.
pub open spec fn last_index_of(s: Seq<char>, c: char) -> Option<int>
    decreases s.len(),
{
    if s.len() == 0 {
        None
    } else if s.last() == c {
        Some(s.len() - 1)
    } else {
        last_index_of(s.drop_last(), c)
    }
}

pub proof fn lemma_last_index_of(s: Seq<char>, c: char)
    ensures
        match last_index_of(s, c) {
            Some(i) => 0 <= i < s.len() && s[i] == c
                && forall|j: int| i < j < s.len() ==> s[j] != c,
            None => forall|j: int| 0 <= j < s.len() ==> s[j] != c,
        },
    decreases s.len(),
{
    if s.len() > 0 && s.last() != c {
        lemma_last_index_of(s.drop_last(), c);
        let t = s.drop_last();
        assert forall|j: int| 0 <= j < t.len() implies t[j] == s[j] by {}
    }
}

/// Finds the last `c` in `s`.
pub fn rfind_char(s: &str, c: char) -> (r: Option<usize>)
    ensures
        match r {
            Some(i) => last_index_of(s@, c) == Some(i as int),
            None => last_index_of(s@, c) is None,
        },
{
    let n = s.unicode_len();
    let mut i: usize = n;
    assert(s@.take(n as int) =~= s@);
    while i > 0
        invariant
            i <= n,
            n == s@.len(),
            last_index_of(s@, c) == last_index_of(s@.take(i as int), c),
        decreases i,
    {
        assert(s@.take(i as int).drop_last() =~= s@.take(i - 1));
        if s.get_char(i - 1) == c {
            return Some(i - 1);
        }
        i = i - 1;
    }
    None
}

/// The stem and extension that `Path::file_stem` and `Path::extension` give
/// for a file name: split at the last dot, unless that dot begins the name.
pub open spec fn stem_and_extension(name: Seq<char>) -> (Seq<char>, Option<Seq<char>>) {
    match last_index_of(name, '.') {
        Some(i) if i > 0 => (name.take(i), Some(name.skip(i + 1))),
        _ => (name, None),
    }
}

/// Splits a file name into stem and extension.
pub fn split_extension(name: &str) -> (r: (String, Option<String>))
    ensures
        r.0@ == stem_and_extension(name@).0,
        match r.1 {
            Some(e) => stem_and_extension(name@).1 == Some(e@),
            None => stem_and_extension(name@).1 is None,
        },
{
    match rfind_char(name, '.') {
        Some(i) if i > 0 => {
            let n = name.unicode_len();
            proof { lemma_last_index_of(name@, '.'); }
            let stem = String::from_str(name.substring_char(0, i));
            let ext = String::from_str(name.substring_char(i + 1, n));
            (stem, Some(ext))
        },
        _ => (String::from_str(name), None),
    }
}

} // verus!
