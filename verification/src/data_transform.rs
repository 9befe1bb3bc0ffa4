//! One-off changes to the articles that the database holds.

use crate::utils::regex_utils::{fancy_replace_all, fancy_replaced};
use vstd::prelude::*;

verus! {

/// A `<pre>` tag, with its attributes, that no `<code>` tag follows.
pub const PRE_START_PATTERN: &'static str = r#"<pre(\s*[\w\d\s"'-=]*?)>(?:(?!\s*<code))"#;

/// A `</pre>` tag, with the white space before it, that no `</code>` tag
/// precedes.
pub const PRE_END_PATTERN: &'static str = r"(?:(?<!<\/code>))\s*<\/pre>";

/// Two `</code>` tags before a `</pre>` tag.
pub const DOUBLE_CODE_PATTERN: &'static str = r"<\/code>\s*<\/code>\s*<\/pre>";

/// `content` with a `<code>` element inside each `<pre>` element that has
/// none: the opening tags first, then the closing tags, then the closing
/// tags that the second step doubled. `None` where a step fails.
pub open spec fn pre_code_transformed(content: Seq<char>) -> Option<Seq<char>> {
    match fancy_replaced(PRE_START_PATTERN@, content, "<pre$1><code>"@) {
        Some(opened) => match fancy_replaced(PRE_END_PATTERN@, opened, "</code></pre>"@) {
            Some(closed) => fancy_replaced(DOUBLE_CODE_PATTERN@, closed, "</code></pre>"@),
            None => None,
        },
        None => None,
    }
}

/// Puts a `<code>` element inside each `<pre>` element of `content` that
/// has none. `None` where the matching gives up.
pub fn transform_pre_code(content: String) -> (transformed: Option<String>)
    ensures
        match transformed {
            Some(text) => pre_code_transformed(content@) == Some(text@),
            None => pre_code_transformed(content@) is None,
        },
{
    match fancy_replace_all(PRE_START_PATTERN, content.as_str(), "<pre$1><code>") {
        Some(opened) => match fancy_replace_all(PRE_END_PATTERN, opened.as_str(), "</code></pre>") {
            Some(closed) => fancy_replace_all(DOUBLE_CODE_PATTERN, closed.as_str(), "</code></pre>"),
            None => None,
        },
        None => None,
    }
}

} // verus!
