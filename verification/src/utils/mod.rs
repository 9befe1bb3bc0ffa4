//! Small helpers on text, addresses, time and optional values.

pub mod ip_utils;
pub mod number_utils;
pub mod regex_utils;
pub mod serde_utils;
pub mod text_utils;
pub mod time_utils;

use vstd::prelude::*;

verus! {

/// One for `Some(true)`, zero for anything else.
pub fn option_bool_to_i32(value: Option<bool>) -> (flag: i32)
    ensures
        flag == if value == Some(true) {
            1i32
        } else {
            0i32
        },
{
    match value {
        Some(true) => 1,
        _ => 0,
    }
}

} // verus!
