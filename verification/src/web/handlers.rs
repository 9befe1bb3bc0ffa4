//! What the handlers of the HTTP interface take in and decide.

use crate::db::entities::{Article, Comment};
use crate::db::queries::Order;
use crate::utils::regex_utils::{regex_replaced, PAGINATION_PATTERN};
use crate::utils::number_utils::{decimal, u64_to_string};
use crate::utils::text_utils::{
    escape_html, escaped, is_truncation, is_word_in_any_case, lowercase, split_on, split_trimmed,
    texts, trim, trimmed, trimmed_parts, truncate_utf8,
};
use crate::web::dtos::{JsonStatus, JsonStatusType};
use crate::web::error::Error;
use crate::web::helpers::{pagination_replacement, replace_start_in_pagination_path};
use vstd::prelude::*;
use vstd::string::StringExecFns;

verus! {

/// Most articles that one page of a listing holds, where the request asks
/// for no other number.
pub const MAX_ARTICLES: usize = 20;

/// Most comments that one page holds, where the request asks for no other
/// number.
pub const MAX_COMMENTS: usize = 20;

/// Most comments that a request may ask for.
pub const MAX_COMMENTS_PER_REQUEST: usize = 50;

/// Largest length of a comment, in bytes.
pub const MAX_COMMENT_LENGTH: usize = 2000;

/// Largest length of the name of an author, in bytes.
pub const MAX_AUTHOR_LENGTH: usize = 70;

/// Largest length of a description in the feed, in bytes, that is not cut.
pub const MAX_RSS_LENGTH: usize = 2500;

/// Most terms of a search that are looked at.
pub const MAX_SEARCH_TERMS: usize = 10;

/// The query of a listing of articles.
#[derive(Debug)]
pub struct ArticlesQuery {
    pub max: Option<usize>,
    pub tags: Option<String>,
    pub order: Option<String>,
}

/// The query of a listing of comments.
#[derive(Debug)]
pub struct CommentsQuery {
    pub max: Option<usize>,
    pub start: Option<usize>,
}

/// A comment as a visitor posts it.
#[derive(Debug)]
pub struct CommentForm {
    pub comment: String,
    pub author: String,
    pub article_id: Option<i32>,
    pub articleurl: Option<String>,
}

/// What the root of the site answers.
pub const INDEX_BODY: &'static str = "Nothing here";

/// What robots are told: everything is open but the rendered articles.
pub const ROBOTS_BODY: &'static str = "User-agent: *\nDisallow: \nDisallow: /render-article/\n";

/// The tags that a listing is narrowed to: the names between the commas of
/// `tags`, each without the white space around it, without the empty ones.
/// No name at all is no narrowing.
pub open spec fn tag_list(tags: Option<Seq<char>>) -> Option<Seq<Seq<char>>> {
    match tags {
        Some(text) if trimmed_parts(split_on(text, ',')).len() > 0 => Some(
            trimmed_parts(split_on(text, ',')),
        ),
        _ => None,
    }
}

/// Reads the tags of a query.
pub fn parse_tags(tags: Option<&str>) -> (names: Option<Vec<String>>)
    ensures
        match names {
            Some(names) => tag_list(
                match tags {
                    Some(text) => Some(text@),
                    None => None,
                },
            ) == Some(texts(names@)),
            None => tag_list(
                match tags {
                    Some(text) => Some(text@),
                    None => None,
                },
            ) is None,
        },
{
    match tags {
        Some(text) => {
            let names = split_trimmed(text, ',');
            if names.len() == 0 {
                None
            } else {
                Some(names)
            }
        },
        None => None,
    }
}

/// Reads the order of a query: ascending for `asc` in any case, descending
/// for anything else and for nothing.
pub fn parse_order(order: Option<&str>) -> (direction: Order)
    ensures
        direction == match order {
            Some(text) if lowercase(text@) == "asc"@ => Order::Asc,
            _ => Order::Desc,
        },
{
    match order {
        Some(text) => {
            if is_word_in_any_case(text, "asc") {
                Order::Asc
            } else {
                Order::Desc
            }
        },
        None => Order::Desc,
    }
}

/// What a count that fits no `usize` is answered with.
pub const COUNT_ERROR: &'static str =
    "Article count cannot be converted to usize - Should never happen";

/// A count that the database gave, as a `usize`. One that does not fit is an
/// internal error.
pub fn count_to_usize(count: i64) -> (converted: Result<usize, Error>)
    ensures
        match converted {
            Ok(n) => n == count,
            Err(Error::InternalServerError(text)) => (count < 0 || count > usize::MAX) && text@
                == COUNT_ERROR@,
            Err(_) => false,
        },
{
    if count < 0 || count as u64 > usize::MAX as u64 {
        Err(Error::InternalServerError(COUNT_ERROR.to_owned()))
    } else {
        Ok(count as usize)
    }
}

/// Whether a listing of `count` rows has a page that begins at `start`. It
/// has none where `start` lies behind the last row: `missing` then says what
/// was not found.
pub fn page_exists(start: usize, count: usize, missing: &str) -> (found: Result<(), Error>)
    ensures
        match found {
            Ok(_) => start < count,
            Err(Error::NotFound(text)) => start >= count && text@ == missing@,
            Err(_) => false,
        },
{
    if start >= count {
        Err(Error::NotFound(missing.to_owned()))
    } else {
        Ok(())
    }
}

/// Where the last page of a listing of `count` rows begins, with `max` rows
/// to a page: at the largest multiple of `max` that is not above `count`.
pub open spec fn last_page(count: nat, max: nat) -> nat
    recommends
        max > 0,
{
    (count / max) * max
}

/// The start of the last page of a listing.
pub fn last_page_start(count: usize, max: usize) -> (start: usize)
    requires
        max > 0,
    ensures
        start == last_page(count as nat, max as nat),
        start <= count,
{
    assert((count as nat / max as nat) * max as nat <= count as nat) by (nonlinear_arith)
        requires
            max > 0,
    ;
    (count / max) * max
}

/// The origin that links of a response begin with: the root of the API
/// where one is set, else the host of the request over HTTPS, and
/// `localhost` where the request names no host.
pub open spec fn origin_text(api_root: Option<Seq<char>>, host: Option<Seq<char>>) -> Seq<char> {
    match api_root {
        Some(root) => root,
        None => "https://"@ + match host {
            Some(host) => host,
            None => "localhost"@,
        },
    }
}

/// The origin that links of a response begin with.
pub fn request_origin(api_root: Option<&str>, host: Option<&str>) -> (origin: String)
    ensures
        origin@ == origin_text(
            match api_root {
                Some(root) => Some(root@),
                None => None,
            },
            match host {
                Some(host) => Some(host@),
                None => None,
            },
        ),
{
    match api_root {
        Some(root) => root.to_owned(),
        None => {
            let mut origin = "https://".to_owned();
            match host {
                Some(host) => origin.append(host),
                None => origin.append("localhost"),
            }
            origin
        },
    }
}

/// The `link` header that names the last page of a listing. The path of the
/// request stands for it where one page holds every row.
pub open spec fn last_link(origin: Seq<char>, path: Seq<char>, max: nat, count: nat) -> Seq<char> {
    "<"@ + origin + (if max >= count {
        path
    } else {
        regex_replaced(
            PAGINATION_PATTERN@,
            path,
            1,
            pagination_replacement(last_page(count, max)),
        )
    }) + "?max="@ + decimal(max as int) + ">; rel=\"last\""@
}

/// The `link` header that names the last page of a listing of `count` rows
/// with `max` rows to a page.
pub fn last_page_link(origin: &str, path: &str, max: usize, count: usize) -> (link: String)
    requires
        max > 0,
    ensures
        link@ == last_link(origin@, path@, max as nat, count as nat),
{
    let mut link = "<".to_owned();
    link.append(origin);
    if max >= count {
        link.append(path);
    } else {
        link.append(
            replace_start_in_pagination_path(path, last_page_start(count, max)).as_str(),
        );
    }
    link.append("?max=");
    link.append(u64_to_string(max as u64).as_str());
    link.append(">; rel=\"last\"");
    link
}

/// Number of comments on a page: what the request asks for, fifty at most,
/// and twenty where it asks for nothing.
pub fn comments_page_size(max: Option<usize>) -> (size: usize)
    ensures
        size == match max {
            Some(m) if m > MAX_COMMENTS_PER_REQUEST => MAX_COMMENTS_PER_REQUEST,
            Some(m) => m,
            None => MAX_COMMENTS,
        },
{
    match max {
        Some(m) => if m > MAX_COMMENTS_PER_REQUEST {
            MAX_COMMENTS_PER_REQUEST
        } else {
            m
        },
        None => MAX_COMMENTS,
    }
}

/// What a comment without a usable article is answered with.
pub const NO_ARTICLE_ERROR: &'static str = "Invalid article URL, ID, or no ID provided";

/// What an empty comment is answered with.
pub const EMPTY_COMMENT_ERROR: &'static str = "Author or message body cannot be empty";

/// The article that a comment is for: the id that the form gives, else the
/// one that was found for its address. An id that is not positive, or none
/// at all, is a bad request.
pub fn comment_article_id(article_id: Option<i32>, looked_up: Option<i32>) -> (id: Result<
    i32,
    Error,
>)
    ensures
        match id {
            Ok(id) => id > 0 && match article_id {
                Some(given) => id == given,
                None => looked_up == Some(id),
            },
            Err(Error::BadRequest(text)) => text@ == NO_ARTICLE_ERROR@ && match article_id {
                Some(given) => given <= 0,
                None => match looked_up {
                    Some(found) => found <= 0,
                    None => true,
                },
            },
            Err(_) => false,
        },
{
    let id: i32 = match article_id {
        Some(given) => given,
        None => match looked_up {
            Some(found) => found,
            None => -1,
        },
    };
    if id <= 0 {
        Err(Error::BadRequest(NO_ARTICLE_ERROR.to_owned()))
    } else {
        Ok(id)
    }
}

/// Makes the author and the text of a comment fit to store: both are cut to
/// their largest lengths, the author loses the white space around it, and
/// the angle brackets of both are escaped. Where nothing is left of either,
/// the comment is a bad request. Gives the author, then the text.
pub fn prepare_comment(author: String, comment: String) -> (prepared: Result<(String, String), Error>)
    ensures
        exists|cut_author: Seq<char>, cut_comment: Seq<char>|
            {
                &&& is_truncation(author@, MAX_AUTHOR_LENGTH as nat, cut_author)
                &&& is_truncation(comment@, MAX_COMMENT_LENGTH as nat, cut_comment)
                &&& match prepared {
                    Ok((stored_author, stored_comment)) => {
                        &&& trimmed(cut_author).len() > 0
                        &&& cut_comment.len() > 0
                        &&& stored_author@ == escaped(trimmed(cut_author))
                        &&& stored_comment@ == escaped(cut_comment)
                    },
                    Err(Error::BadRequest(text)) => {
                        &&& text@ == EMPTY_COMMENT_ERROR@
                        &&& (escaped(trimmed(cut_author)).len() == 0 || cut_comment.len() == 0)
                    },
                    Err(_) => false,
                }
            },
{
    let mut comment = comment;
    let mut author = author;
    truncate_utf8(&mut comment, MAX_COMMENT_LENGTH);
    truncate_utf8(&mut author, MAX_AUTHOR_LENGTH);
    let ghost cut_author = author@;
    let ghost cut_comment = comment@;
    let stored_author = escape_html(trim(author.as_str()).as_str());
    if stored_author.as_str().is_empty() || comment.as_str().is_empty() {
        return Err(Error::BadRequest(EMPTY_COMMENT_ERROR.to_owned()));
    }
    let stored_comment = escape_html(comment.as_str());
    proof {
        crate::utils::text_utils::lemma_escaped_keeps_text(trimmed(cut_author));
    }
    Ok((stored_author, stored_comment))
}

/// The comment to insert: its id is not known yet and is -1.
pub fn new_comment(
    article_id: i32,
    author: String,
    comment: String,
    date: i64,
    client_ip: Option<String>,
) -> (row: Comment)
    ensures
        row.id == -1,
        row.article_id == article_id,
        row.author == author,
        row.comment == comment,
        row.date == date,
        row.client_ip == client_ip,
{
    Comment { article_id, id: -1, author, comment, date, client_ip }
}

/// What a refresh that changed nothing is answered with.
pub const NO_UPDATE_ERROR: &'static str = "No updates were made";

/// What a refresh that changed a row is answered with.
pub const REFRESHED_MESSAGE: &'static str = "Date refreshed and article published";

/// The answer to a refresh of the date of an article that changed `count`
/// rows.
pub fn refresh_status(count: usize, article_id: i32) -> (answer: Result<JsonStatus, Error>)
    ensures
        match answer {
            Ok(status) => {
                &&& count > 0
                &&& status.status@ == crate::web::dtos::status_text(JsonStatusType::Success)
                &&& status.message@ == REFRESHED_MESSAGE@
                &&& status.id == Some(article_id)
            },
            Err(Error::NotFound(text)) => count == 0 && text@ == NO_UPDATE_ERROR@,
            Err(_) => false,
        },
{
    if count > 0 {
        Ok(JsonStatus::new_with_id(JsonStatusType::Success, REFRESHED_MESSAGE, article_id))
    } else {
        Err(Error::NotFound(NO_UPDATE_ERROR.to_owned()))
    }
}

/// What a request for an article that is not there is answered with.
pub const NO_ARTICLE_MESSAGE: &'static str = "Article does not exist";

/// The article that was asked for, or the error that says it is not there.
pub fn article_or_not_found(article: Option<Article>) -> (found: Result<Article, Error>)
    ensures
        match found {
            Ok(a) => article == Some(a),
            Err(Error::NotFound(text)) => article is None && text@ == NO_ARTICLE_MESSAGE@,
            Err(_) => false,
        },
{
    match article {
        Some(a) => Ok(a),
        None => Err(Error::NotFound(NO_ARTICLE_MESSAGE.to_owned())),
    }
}

} // verus!
