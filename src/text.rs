//! Small string helpers with exact contracts.
use vstd::prelude::*;

verus! {

/// An owned copy of a string slice.
pub fn lit(s: &str) -> (r: String)
    ensures
        r@ == s@,
{
    String::from_str(s)
}

/// `a` followed by `b`.
pub fn cat(a: &str, b: &str) -> (r: String)
    ensures
        r@ == a@ + b@,
{
    let mut r = String::from_str(a);
    r.append(b);
    r
}

/// `a`, `b` and `c`, one after the other.
pub fn cat3(a: &str, b: &str, c: &str) -> (r: String)
    ensures
        r@ == a@ + b@ + c@,
{
    let mut r = String::from_str(a);
    r.append(b);
    r.append(c);
    r
}

/// Whether two texts are the same sequence of characters.
pub fn same_text(a: &str, b: &str) -> (r: bool)
    ensures
        r == (a@ == b@),
{
    let n = a.unicode_len();
    if n != b.unicode_len() {
        return false;
    }
    let mut i: usize = 0;
    while i < n
        invariant
            n == a@.len() == b@.len(),
            i <= n,
            forall|j: int| 0 <= j < i ==> a@[j] == b@[j],
        decreases n - i,
    {
        if a.get_char(i) != b.get_char(i) {
            return false;
        }
        i = i + 1;
    }
    assert(a@ =~= b@);
    true
}

/// An element-wise copy of a list of strings.
pub fn clone_strings(v: &Vec<String>) -> (r: Vec<String>)
    ensures
        r@ == v@,
{
    let mut r: Vec<String> = Vec::new();
    let mut i: usize = 0;
    while i < v.len()
        invariant
            i <= v.len(),
            r@ == v@.subrange(0, i as int),
        decreases v.len() - i,
    {
        r.push(v[i].clone());
        i = i + 1;
    }
    assert(r@ =~= v@);
    r
}

/// The text that `words` makes when written one after the other with a space
/// between each two.
pub open spec fn spaced(words: Seq<Seq<char>>) -> Seq<char>
    decreases words.len(),
{
    if words.len() == 0 {
        Seq::empty()
    } else if words.len() == 1 {
        words[0]
    } else {
        spaced(words.drop_last()) + " "@ + words.last()
    }
}

/// The texts of a list of strings.
pub open spec fn views(v: Seq<String>) -> Seq<Seq<char>> {
    v.map_values(|s: String| s@)
}

/// Pushing a string pushes its text.
pub proof fn lemma_views_push(v: Seq<String>, x: String)
    ensures
        views(v.push(x)) == views(v).push(x@),
{
    assert(views(v.push(x)) =~= views(v).push(x@));
}

/// Joins strings with a single space between each two.
pub fn join_spaced(words: &Vec<String>) -> (r: String)
    ensures
        r@ == spaced(views(words@)),
{
    let mut r = String::new();
    let mut i: usize = 0;
    while i < words.len()
        invariant
            i <= words.len(),
            r@ == spaced(views(words@.subrange(0, i as int))),
        decreases words.len() - i,
    {
        let ghost before = views(words@.subrange(0, i as int));
        let ghost after = views(words@.subrange(0, i + 1));
        assert(after.drop_last() =~= before);
        if i > 0 {
            r.append(" ");
        }
        r.append(words[i].as_str());
        i = i + 1;
    }
    assert(words@.subrange(0, words@.len() as int) =~= words@);
    r
}

} // verus!
