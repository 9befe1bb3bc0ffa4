//! Links of the site.

use crate::utils::regex_utils::{
    regex_replaced, regex_replacen, PAGINATION_PATTERN, PORT_PATTERN,
};
use crate::utils::number_utils::{decimal, u64_to_string};
use vstd::prelude::*;
use vstd::string::StringExecFns;

verus! {

/// The address of an article: the root of the site, the root of its kind of
/// article and its own name, with a slash between each two.
pub open spec fn article_url(root: Seq<char>, article_root: Seq<char>, url: Seq<char>) -> Seq<char> {
    root + "/"@ + article_root + "/"@ + url
}

/// The address of the article `url` under `article_root` on the site `root`.
pub fn generate_article_url(root: &str, article_root: &str, url: &str) -> (link: String)
    ensures
        link@ == article_url(root@, article_root@, url@),
{
    let mut link = root.to_owned();
    link.append("/");
    link.append(article_root);
    link.append("/");
    link.append(url);
    link
}

/// The address of a peer without the port that may stand behind it.
pub fn strip_port(address: &str) -> (ip: String)
    ensures
        ip@ == regex_replaced(PORT_PATTERN@, address@, 1, "$1"@),
{
    regex_replacen(PORT_PATTERN, address, 1, "$1")
}

/// What takes the place of a path in a link to another page: all that stands
/// before its last slash, a slash and the new start.
pub open spec fn pagination_replacement(start: nat) -> Seq<char> {
    "$1/"@ + decimal(start as int)
}

/// The path of another page of a listing: `path` with `start` in place of
/// its last segment.
pub fn replace_start_in_pagination_path(path: &str, start: usize) -> (page: String)
    ensures
        page@ == regex_replaced(PAGINATION_PATTERN@, path@, 1, pagination_replacement(start as nat)),
{
    regex_replacen(PAGINATION_PATTERN, path, 1, pagination_replacement_of(start).as_str())
}

/// The replacement that puts `start` in place of the last segment of a path.
pub fn pagination_replacement_of(start: usize) -> (replacement: String)
    ensures
        replacement@ == pagination_replacement(start as nat),
{
    let mut replacement = "$1/".to_owned();
    replacement.append(u64_to_string(start as u64).as_str());
    replacement
}

} // verus!
