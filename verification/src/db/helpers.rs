//! Pieces of statements, and the plain text of an article.

use crate::utils::text_utils::{join, joined};
use vstd::prelude::*;
use vstd::string::StringExecFns;

verus! {

pub use crate::utils::time_utils::current_timestamp;

/// The condition that `name` equals a placeholder.
pub open spec fn field_equal_qmark(name: Seq<char>) -> Seq<char> {
    name + " = ?"@
}

/// `name = ?`, once.
pub fn generate_field_equal_qmark(name: &str) -> (clause: String)
    ensures
        clause@ == field_equal_qmark(name@),
{
    name.to_owned().concat(" = ?")
}

/// `name = ?`, `count` times, joined by `AND`.
pub fn generate_where_placeholders(name: &str, count: usize) -> (clauses: String)
    ensures
        clauses@ == joined(
            Seq::new(count as nat, |i: int| field_equal_qmark(name@)),
            " AND "@,
        ),
{
    let mut all_clauses: Vec<String> = Vec::new();
    let mut i: usize = 0;
    while i < count
        invariant
            i <= count,
            all_clauses@.len() == i,
            forall|k: int| 0 <= k < i ==> (#[trigger] all_clauses@[k])@ == field_equal_qmark(name@),
        decreases count - i,
    {
        all_clauses.push(generate_field_equal_qmark(name));
        i += 1;
    }
    assert(crate::utils::text_utils::texts(all_clauses@) =~= Seq::new(
        count as nat,
        |i: int| field_equal_qmark(name@),
    ));
    join(&all_clauses, " AND ")
}

/// Width, in columns, to which the plain text of an article is wrapped.
pub const TEXT_WIDTH: usize = 70;

/// The plain text that `html2text` renders from HTML at a given width, or
/// `None` where it fails.
pub uninterp spec fn rendered_text(html: Seq<u8>, width: int) -> Option<Seq<char>>;

/// Calls `html2text::from_read` on the bytes: the plain text of the HTML,
/// wrapped to `width` columns, a function of the two alone.
#[verifier::external_body]
fn html_to_text(html: &[u8], width: usize) -> (text: Option<String>)
    ensures
        match text {
            Some(text) => rendered_text(html@, width as int) == Some(text@),
            None => rendered_text(html@, width as int) is None,
        },
{
    html2text::from_read(html, width).ok()
}

/// What is kept of a rendering: its text, or nothing where it failed.
pub open spec fn text_or_empty(rendering: Option<Seq<char>>) -> Seq<char> {
    match rendering {
        Some(text) => text,
        None => Seq::empty(),
    }
}

/// The text of a rendering, or an empty string where it failed.
pub fn rendering_or_empty(rendering: Option<String>) -> (text: String)
    ensures
        text@ == text_or_empty(
            match rendering {
                Some(text) => Some(text@),
                None => None,
            },
        ),
        rendering is Some ==> text == rendering->0,
{
    match rendering {
        Some(text) => text,
        None => String::new(),
    }
}

/// The plain text of `html`, wrapped to seventy columns. Markup that cannot
/// be rendered gives an empty string.
pub fn strip_html(html: &String) -> (text: String)
    ensures
        text@ == text_or_empty(
            rendered_text(vstd::utf8::encode_utf8(html@), TEXT_WIDTH as int),
        ),
{
    rendering_or_empty(html_to_text(html.as_str().as_bytes(), TEXT_WIDTH))
}

/// The plain text of the content of an article, empty where it has none.
pub fn stripped_article_content(content: &Option<String>) -> (text: String)
    ensures
        text@ == match *content {
            None => Seq::<char>::empty(),
            Some(html) => text_or_empty(
                rendered_text(vstd::utf8::encode_utf8(html@), TEXT_WIDTH as int),
            ),
        },
{
    match content {
        None => String::new(),
        Some(content) => strip_html(content),
    }
}

} // verus!
