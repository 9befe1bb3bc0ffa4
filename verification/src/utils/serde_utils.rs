//! Helpers for values that arrive as optional text.

use vstd::prelude::*;

verus! {

/// The text that `value` stands for, an empty string counting as none.
pub open spec fn non_empty(value: Option<Seq<char>>) -> Option<Seq<char>> {
    match value {
        Some(text) if text.len() > 0 => Some(text),
        _ => None,
    }
}

/// Turns an empty string into `None` and leaves every other value as it is.
pub fn empty_string_to_none(value: Option<String>) -> (kept: Option<String>)
    ensures
        kept == match value {
            Some(text) if text@.len() > 0 => Some(text),
            _ => None,
        },
{
    match value {
        Some(s) => {
            if s.as_str().is_empty() {
                None
            } else {
                Some(s)
            }
        },
        None => None,
    }
}

} // verus!
