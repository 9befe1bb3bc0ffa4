//! The regular expressions of the site, and the calls that apply them.

use crate::utils::text_utils::absolute_link;
use vstd::prelude::*;

verus! {

/// What is taken out of a search term: brackets, white space and the signs
/// `$`, `^`, `%`, `+` and `-`.
pub const SEARCH_CLEANUP_PATTERN: &'static str = r"[\[\]\s\$\^%\+-]";

/// A `src` or `href` attribute, in any case, whose value begins with a
/// slash.
pub const REL_LINK_PATTERN: &'static str = "(?i)(src=\"|href=\")/(.*?)\"";

/// An address with a port behind it.
pub const PORT_PATTERN: &'static str = r"(.+):\d+$";

/// A path whose last segment is a number, or empty.
pub const PAGINATION_PATTERN: &'static str = r"(.+)/(\d+)?$";

/// Whether `pattern` is one of the regular expressions of the site, all of
/// which compile.
pub open spec fn is_site_pattern(pattern: Seq<char>) -> bool {
    ||| pattern == SEARCH_CLEANUP_PATTERN@
    ||| pattern == REL_LINK_PATTERN@
    ||| pattern == PORT_PATTERN@
    ||| pattern == PAGINATION_PATTERN@
}

/// `text` with the matches of the regular expression `pattern` replaced by
/// `replacement`, in which `$1` stands for the first group of the match and
/// so on: the first `limit` matches, or all of them where `limit` is zero.
pub uninterp spec fn regex_replaced(
    pattern: Seq<char>,
    text: Seq<char>,
    limit: int,
    replacement: Seq<char>,
) -> Seq<char>;

/// Calls `regex::Regex::new` and `Regex::replacen`: the text with the first
/// `limit` matches of the pattern replaced, all of them for zero. The
/// patterns of the site compile, and a replacement never fails.
#[verifier::external_body]
pub(crate) fn regex_replacen(pattern: &str, text: &str, limit: usize, replacement: &str) -> (replaced:
    String)
    requires
        is_site_pattern(pattern@),
    ensures
        replaced@ == regex_replaced(pattern@, text@, limit as int, replacement@),
{
    regex::Regex::new(pattern).unwrap().replacen(text, limit, replacement).into_owned()
}

/// `source` with each match of `pattern`, an attribute and a path, replaced
/// by the absolute link that `absolute_link` makes of them under `base_url`.
pub uninterp spec fn links_replaced(pattern: Seq<char>, source: Seq<char>, base_url: Seq<char>) -> Seq<
    char,
>;

/// Calls `regex::Regex::new` and `Regex::replace_all` with a closure that
/// hands the two groups of each match to `absolute_link`: the text with
/// every match replaced by what that function returns.
#[verifier::external_body]
pub(crate) fn replace_links(pattern: &str, source: &str, base_url: &str) -> (replaced: String)
    requires
        pattern@ == REL_LINK_PATTERN@,
    ensures
        replaced@ == links_replaced(pattern@, source@, base_url@),
{
    regex::Regex::new(pattern).unwrap().replace_all(
        source,
        |caps: &regex::Captures| absolute_link(&caps[1], base_url, &caps[2]),
    ).into_owned()
}

/// `text` with the matches of the regular expression `pattern`, which may
/// look ahead and behind, replaced by `replacement`. `None` where the
/// pattern does not compile or the matching gives up.
pub uninterp spec fn fancy_replaced(pattern: Seq<char>, text: Seq<char>, replacement: Seq<char>) -> Option<
    Seq<char>,
>;

/// Calls `fancy_regex::Regex::new` and `Regex::try_replacen` with limit
/// zero: the text with every match replaced, or `None` where either fails.
#[verifier::external_body]
pub(crate) fn fancy_replace_all(pattern: &str, text: &str, replacement: &str) -> (replaced: Option<
    String,
>)
    ensures
        match replaced {
            Some(replaced) => fancy_replaced(pattern@, text@, replacement@) == Some(replaced@),
            None => fancy_replaced(pattern@, text@, replacement@) is None,
        },
{
    match fancy_regex::Regex::new(pattern) {
        Ok(regex) => match regex.try_replacen(text, 0, replacement) {
            Ok(replaced) => Some(replaced.into_owned()),
            Err(_) => None,
        },
        Err(_) => None,
    }
}

} // verus!
