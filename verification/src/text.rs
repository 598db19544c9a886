//! Small helpers on strings and lists of strings.

use vstd::prelude::*;
use vstd::string::*;

verus! {

/// Whether `text` begins with the character `first`.
pub open spec fn starts_with_char(text: Seq<char>, first: char) -> bool {
    text.len() > 0 && text[0] == first
}

/// Tells whether `text` begins with the character `first`.
pub(crate) fn begins_with_char(text: &String, first: char) -> (found: bool)
    ensures
        found == starts_with_char(text@, first),
{
    let slice = text.as_str();
    !slice.is_empty() && slice.get_char(0) == first
}

/// Makes an owned string of a string slice.
pub(crate) fn owned_string(text: &str) -> (owned: String)
    ensures
        owned@ == text@,
{
    String::from_str(text)
}

/// Adds copies of the strings of `more`, from position `from` on, to the
/// end of `list`.
pub(crate) fn append_strings(list: Vec<String>, more: &Vec<String>, from: usize) -> (extended: Vec<
    String,
>)
    requires
        from <= more.len(),
    ensures
        extended.deep_view() == list.deep_view() + more.deep_view().skip(from as int),
{
    let ghost before = list.deep_view();
    let mut extended = list;
    let mut i: usize = from;
    while i < more.len()
        invariant
            from <= i <= more.len(),
            extended@.len() == before.len() + i - from,
            forall|j: int| 0 <= j < before.len() ==> extended@[j]@ == before[j],
            forall|k: int|
                before.len() <= k < extended@.len() ==> (#[trigger] extended@[k])@ == more@[from
                    + k - before.len()]@,
        decreases more.len() - i,
    {
        extended.push(more[i].clone());
        i += 1;
    }
    assert(extended.deep_view() =~= before + more.deep_view().skip(from as int));
    extended
}

/// Copies a list of strings.
pub(crate) fn clone_strings(list: &Vec<String>) -> (copy: Vec<String>)
    ensures
        copy.deep_view() == list.deep_view(),
{
    let copy = append_strings(Vec::new(), list, 0);
    assert(copy.deep_view() =~= list.deep_view());
    copy
}

/// Copies an optional string.
pub(crate) fn clone_optional_string(text: &Option<String>) -> (copy: Option<String>)
    ensures
        copy.deep_view() == text.deep_view(),
{
    match text {
        Some(inner) => Some(inner.clone()),
        None => None,
    }
}

} // verus!
