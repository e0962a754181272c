//! The content-addressed cache key of a translation unit: its file name and
//! the SHA-256 digest of its path and full content.
use vstd::prelude::*;

use sha2::{Digest, Sha256};

use crate::path::{file_name, file_name_of};
use crate::text::{cat, cat3};

verus! {

/// The SHA-256 digest of the UTF-8 encoding of a text.
pub uninterp spec fn sha256_of(text: Seq<char>) -> Seq<u8>;

/// Relies on sha2's `Sha256::digest`: the 32-byte digest of the bytes given,
/// here the UTF-8 bytes of `text`.
#[verifier::external_body]
fn sha256(text: &str) -> (r: Vec<u8>)
    ensures
        r@ == sha256_of(text@),
        r@.len() == 32,
{
    Sha256::digest(text.as_bytes()).to_vec()
}

/// The lower-case hexadecimal digit of a value below 16.
pub open spec fn hex_digit(n: u8) -> Seq<char> {
    match n {
        0 => "0"@,
        1 => "1"@,
        2 => "2"@,
        3 => "3"@,
        4 => "4"@,
        5 => "5"@,
        6 => "6"@,
        7 => "7"@,
        8 => "8"@,
        9 => "9"@,
        10 => "a"@,
        11 => "b"@,
        12 => "c"@,
        13 => "d"@,
        14 => "e"@,
        _ => "f"@,
    }
}

fn hex_digit_text(n: u8) -> (r: &'static str)
    ensures
        r@ == hex_digit(n),
{
    match n {
        0 => "0",
        1 => "1",
        2 => "2",
        3 => "3",
        4 => "4",
        5 => "5",
        6 => "6",
        7 => "7",
        8 => "8",
        9 => "9",
        10 => "a",
        11 => "b",
        12 => "c",
        13 => "d",
        14 => "e",
        _ => "f",
    }
}

/// Two lower-case hexadecimal digits per byte, high half first.
pub open spec fn hex_of(bytes: Seq<u8>) -> Seq<char>
    decreases bytes.len(),
{
    if bytes.len() == 0 {
        Seq::empty()
    } else {
        hex_of(bytes.drop_last()) + hex_digit(bytes.last() / 16) + hex_digit(bytes.last() % 16)
    }
}

pub fn to_hex(bytes: &Vec<u8>) -> (r: String)
    ensures
        r@ == hex_of(bytes@),
{
    let mut r = String::new();
    let mut i: usize = 0;
    while i < bytes.len()
        invariant
            i <= bytes.len(),
            r@ == hex_of(bytes@.subrange(0, i as int)),
        decreases bytes.len() - i,
    {
        let b = bytes[i];
        assert(bytes@.subrange(0, i + 1).drop_last() =~= bytes@.subrange(0, i as int));
        r.append(hex_digit_text(b / 16));
        r.append(hex_digit_text(b % 16));
        i = i + 1;
    }
    assert(bytes@.subrange(0, bytes@.len() as int) =~= bytes@);
    r
}

/// What is digested for a translation unit: its path in double quotes, a
/// dash, then its content.
pub open spec fn digest_input(path: Seq<char>, content: Seq<char>) -> Seq<char> {
    "\""@ + path + "\"-"@ + content
}

/// The cache key of a translation unit: `<file name>.<hex digest>`; none for a
/// path without a file name.
pub open spec fn cache_key_of(path: Seq<char>, content: Seq<char>) -> Option<Seq<char>> {
    match file_name_of(path) {
        Some(n) => Some(n + "."@ + hex_of(sha256_of(digest_input(path, content)))),
        None => None,
    }
}

/// The cache key of a translation unit, given its path and its full content.
pub fn hash(path: &str, content: &str) -> (r: Option<String>)
    ensures
        r matches Some(k) ==> cache_key_of(path@, content@) == Some(k@),
        r is None ==> cache_key_of(path@, content@) is None,
{
    match file_name(path) {
        None => None,
        Some(name) => {
            let quoted = cat3("\"", path, "\"-");
            let input = cat(quoted.as_str(), content);
            let digest = sha256(input.as_str());
            let hex = to_hex(&digest);
            Some(cat3(name.as_str(), ".", hex.as_str()))
        },
    }
}

/// The key is a function of the path and the content: supplying the same pair
/// again gives the same key, so a reverted file finds its earlier object. And
/// for a fixed path, different contents are digested from different inputs;
/// that they also get different digests is what SHA-256 is relied on for.
pub proof fn lemma_cache_key_tracks_content(path: Seq<char>, c1: Seq<char>, c2: Seq<char>)
    ensures
        c1 == c2 ==> cache_key_of(path, c1) == cache_key_of(path, c2),
        c1 != c2 ==> digest_input(path, c1) != digest_input(path, c2),
{
    let p = "\""@ + path + "\"-"@;
    assert(digest_input(path, c1) =~= p + c1);
    assert(digest_input(path, c2) =~= p + c2);
    if c1 != c2 && p + c1 == p + c2 {
        assert((p + c1).subrange(p.len() as int, (p + c1).len() as int) =~= c1);
        assert((p + c2).subrange(p.len() as int, (p + c2).len() as int) =~= c2);
    }
}

} // verus!
