//! Optional strings, seen as sequences of characters.

use vstd::prelude::*;

verus! {

/// What an optional string holds, as a sequence of characters.
pub open spec fn text(value: Option<String>) -> Option<Seq<char>> {
    match value {
        Some(s) => Some(s@),
        None => None,
    }
}

/// What an optional string slice holds, as a sequence of characters.
pub open spec fn slice_text(value: Option<&str>) -> Option<Seq<char>> {
    match value {
        Some(s) => Some(s@),
        None => None,
    }
}

/// Copies an optional string.
pub(crate) fn clone_text(value: &Option<String>) -> (copy: Option<String>)
    ensures
        copy == *value,
{
    match value {
        Some(s) => Some(s.clone()),
        None => None,
    }
}

/// Borrows an optional string as an optional slice.
pub(crate) fn borrow_text(value: &Option<String>) -> (slice: Option<&str>)
    ensures
        slice_text(slice) == text(*value),
{
    match value {
        Some(s) => Some(s.as_str()),
        None => None,
    }
}

} // verus!
