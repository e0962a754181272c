//! Lookup in lists of named entries, the form that registries and toolchains
//! take in a configuration.
use vstd::prelude::*;

use crate::text::same_text;

verus! {

/// Some entry carries `name`.
pub open spec fn has_name<T>(entries: Seq<(String, T)>, name: Seq<char>) -> bool {
    exists|i: int| 0 <= i < entries.len() && #[trigger] entries[i].0@ == name
}

/// Entry `i` is the first that carries `name`.
pub open spec fn is_first_named<T>(entries: Seq<(String, T)>, name: Seq<char>, i: int) -> bool {
    &&& 0 <= i < entries.len()
    &&& entries[i].0@ == name
    &&& forall|j: int| 0 <= j < i ==> #[trigger] entries[j].0@ != name
}

/// The value of the first entry that carries `name`.
pub open spec fn first_named<T>(entries: Seq<(String, T)>, name: Seq<char>) -> T {
    entries[choose|i: int| is_first_named(entries, name, i)].1
}

/// Two first indices of one name are the same index.
pub proof fn lemma_first_named_unique<T>(entries: Seq<(String, T)>, name: Seq<char>, i: int)
    requires
        is_first_named(entries, name, i),
    ensures
        first_named(entries, name) == entries[i].1,
        has_name(entries, name),
{
    let j = choose|j: int| is_first_named(entries, name, j);
    assert(is_first_named(entries, name, j));
    if j < i {
        assert(entries[j].0@ != name);
    } else if i < j {
        assert(entries[i].0@ != name);
    }
    assert(entries[i].0@ == name);
}

/// The index of the first entry named `name`, if any.
pub fn find_named<T>(entries: &Vec<(String, T)>, name: &str) -> (r: Option<usize>)
    ensures
        r matches Some(i) ==> is_first_named(entries@, name@, i as int) && first_named(
            entries@,
            name@,
        ) == entries@[i as int].1,
        r is None ==> !has_name(entries@, name@),
{
    let mut i: usize = 0;
    while i < entries.len()
        invariant
            i <= entries.len(),
            forall|j: int| 0 <= j < i ==> #[trigger] entries@[j].0@ != name@,
        decreases entries.len() - i,
    {
        if same_text(entries[i].0.as_str(), name) {
            proof {
                lemma_first_named_unique(entries@, name@, i as int);
            }
            return Some(i);
        }
        i = i + 1;
    }
    None
}

} // verus!
