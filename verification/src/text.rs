//! Comparing text by its characters.

use vstd::prelude::*;

verus! {

/// `str`'s `==` (`<str as PartialEq>::eq`): two string slices are equal
/// exactly when they hold the same characters.
pub assume_specification[ <str as PartialEq>::eq ](a: &str, b: &str) -> (same: bool)
    ensures
        same == (a@ == b@),
;

/// The characters of each string of a list, in order.
pub open spec fn texts(list: Seq<String>) -> Seq<Seq<char>> {
    list.map_values(|s: String| s@)
}

/// Whether `needle` is one of the strings of `list`.
pub fn contains_text(list: &Vec<String>, needle: &str) -> (found: bool)
    ensures
        found == texts(list@).contains(needle@),
{
    let mut i: usize = 0;
    while i < list.len()
        invariant
            i <= list.len(),
            forall|j: int| 0 <= j < i ==> texts(list@)[j] != needle@,
        decreases list.len() - i,
    {
        if list[i].as_str().eq(needle) {
            assert(texts(list@)[i as int] == needle@);
            return true;
        }
        i += 1;
    }
    false
}

/// The characters of each string of a list of references, in order.
pub open spec fn refs_text(list: Seq<&String>) -> Seq<Seq<char>> {
    list.map_values(|s: &String| s@)
}

/// Whether `needle` is one of the strings that `list` refers to.
pub fn contains_ref(list: &Vec<&String>, needle: &str) -> (found: bool)
    ensures
        found == refs_text(list@).contains(needle@),
{
    let mut i: usize = 0;
    while i < list.len()
        invariant
            i <= list.len(),
            forall|j: int| 0 <= j < i ==> refs_text(list@)[j] != needle@,
        decreases list.len() - i,
    {
        if list[i].as_str().eq(needle) {
            assert(refs_text(list@)[i as int] == needle@);
            return true;
        }
        i += 1;
    }
    false
}

} // verus!
