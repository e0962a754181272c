//! Paths as text, `/`-separated: joining, file names and extensions.
use vstd::prelude::*;

use crate::text::{cat, cat3, lit, same_text};

verus! {

/// `name` placed under `base`: no separator is added after an empty base or
/// one that already ends in `/`.
pub open spec fn joined(base: Seq<char>, name: Seq<char>) -> Seq<char> {
    if base.len() == 0 {
        name
    } else if base.last() == '/' {
        base + name
    } else {
        base + "/"@ + name
    }
}

pub fn join(base: &str, name: &str) -> (r: String)
    ensures
        r@ == joined(base@, name@),
{
    let n = base.unicode_len();
    if n == 0 {
        lit(name)
    } else if base.get_char(n - 1) == '/' {
        cat(base, name)
    } else {
        cat3(base, "/", name)
    }
}

/// The index of the last `c` in `s`, or -1.
pub open spec fn last_index(s: Seq<char>, c: char) -> int
    decreases s.len(),
{
    if s.len() == 0 {
        -1
    } else if s.last() == c {
        s.len() - 1
    } else {
        last_index(s.drop_last(), c)
    }
}

pub proof fn lemma_last_index(s: Seq<char>, c: char)
    ensures
        -1 <= last_index(s, c) < s.len(),
        last_index(s, c) >= 0 ==> s[last_index(s, c)] == c,
        forall|j: int| last_index(s, c) < j < s.len() ==> s[j] != c,
    decreases s.len(),
{
    if s.len() > 0 && s.last() != c {
        lemma_last_index(s.drop_last(), c);
        assert forall|j: int| last_index(s, c) < j < s.len() implies s[j] != c by {
            if j < s.len() - 1 {
                assert(s.drop_last()[j] == s[j]);
            }
        }
    }
}

/// Finds the last `c` in `s`.
pub fn find_last(s: &str, c: char) -> (r: Option<usize>)
    ensures
        r matches Some(i) ==> i == last_index(s@, c),
        r is None ==> last_index(s@, c) == -1,
{
    let n = s.unicode_len();
    let mut i: usize = n;
    assert(s@.subrange(0, n as int) =~= s@);
    while i > 0
        invariant
            i <= n == s@.len(),
            last_index(s@, c) == last_index(s@.subrange(0, i as int), c),
        decreases i,
    {
        let ghost pre = s@.subrange(0, i as int);
        assert(pre.drop_last() =~= s@.subrange(0, i - 1));
        if s.get_char(i - 1) == c {
            return Some(i - 1);
        }
        i = i - 1;
    }
    assert(s@.subrange(0, 0) =~= Seq::<char>::empty());
    None
}

/// What follows the last `/`.
pub open spec fn final_segment(p: Seq<char>) -> Seq<char> {
    p.subrange(last_index(p, '/') + 1, p.len() as int)
}

/// The file name of a path: its final segment, unless that is empty, `.` or `..`.
pub open spec fn file_name_of(p: Seq<char>) -> Option<Seq<char>> {
    let s = final_segment(p);
    if s.len() == 0 || s == "."@ || s == ".."@ {
        None
    } else {
        Some(s)
    }
}

pub proof fn lemma_file_name_has_no_slash(p: Seq<char>)
    ensures
        file_name_of(p) matches Some(n) ==> !n.contains('/'),
{
    lemma_last_index(p, '/');
    if let Some(n) = file_name_of(p) {
        assert forall|k: int| 0 <= k < n.len() implies n[k] != '/' by {
            assert(n[k] == p[last_index(p, '/') + 1 + k]);
        }
    }
}

pub fn file_name(path: &str) -> (r: Option<String>)
    ensures
        r matches Some(n) ==> file_name_of(path@) == Some(n@),
        r is None ==> file_name_of(path@) is None,
{
    proof {
        lemma_last_index(path@, '/');
    }
    let n = path.unicode_len();
    let start: usize = match find_last(path, '/') {
        Some(i) => i + 1,
        None => 0,
    };
    let seg = path.substring_char(start, n);
    if start == n || same_text(seg, ".") || same_text(seg, "..") {
        None
    } else {
        Some(lit(seg))
    }
}

/// The extension of a file name: what follows its last `.`, unless that `.`
/// opens the name.
pub open spec fn extension_of(name: Seq<char>) -> Option<Seq<char>> {
    let d = last_index(name, '.');
    if d <= 0 {
        None
    } else {
        Some(name.subrange(d + 1, name.len() as int))
    }
}

/// The path names a file whose extension is `ext`.
pub open spec fn has_extension_spec(path: Seq<char>, ext: Seq<char>) -> bool {
    match file_name_of(path) {
        Some(n) => extension_of(n) == Some(ext),
        None => false,
    }
}

pub fn has_extension(path: &str, ext: &str) -> (r: bool)
    ensures
        r == has_extension_spec(path@, ext@),
{
    proof {
        lemma_last_index(path@, '/');
    }
    match file_name(path) {
        None => false,
        Some(name) => {
            let n = name.as_str().unicode_len();
            match find_last(name.as_str(), '.') {
                None => false,
                Some(d) => {
                    if d == 0 {
                        false
                    } else {
                        proof {
                            lemma_last_index(name@, '.');
                        }
                        same_text(name.as_str().substring_char(d + 1, n), ext)
                    }
                },
            }
        },
    }
}

} // verus!
