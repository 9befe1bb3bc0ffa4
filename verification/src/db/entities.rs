//! The rows of the database, as plain values.

use vstd::prelude::*;

verus! {

/// A label that articles carry.
#[derive(Debug, Clone)]
pub struct Tag {
    pub id: i32,
    pub name: String,
    pub main_tag: i32,
}

/// An article or a short, with what is shown beside it.
#[derive(Debug)]
pub struct Article {
    pub id: i32,
    pub title: String,
    pub article_url: Option<String>,
    pub thumb_image: Option<String>,
    pub date: i64,
    pub user_id: i32,
    pub summary: String,
    pub content: Option<String>,
    pub published: i32,
    pub short: i32,
    pub tags: Vec<Tag>,
    pub author: String,
    pub comments_count: i64,
}

/// The fields of an article that an update sets: `None` leaves a field as it
/// is. For the thumbnail, `Some(None)` clears it.
#[derive(Debug)]
pub struct ArticleUpdate {
    pub id: i32,
    pub title: Option<String>,
    pub article_url: Option<String>,
    pub thumb_image: Option<Option<String>>,
    pub user_id: Option<i32>,
    pub summary: Option<String>,
    pub content: Option<String>,
    pub published: Option<i32>,
    pub tags: Option<Vec<Tag>>,
}

impl ArticleUpdate {
    /// An update that sets the summary and the content of article `id` and
    /// nothing else.
    pub fn update_content(id: i32, summary: String, content: String) -> (update: Self)
        ensures
            update.id == id,
            update.summary == Some(summary),
            update.content == Some(content),
            update.title is None,
            update.article_url is None,
            update.thumb_image is None,
            update.user_id is None,
            update.published is None,
            update.tags is None,
    {
        Self {
            id,
            summary: Some(summary),
            content: Some(content),
            title: None,
            article_url: None,
            thumb_image: None,
            user_id: None,
            published: None,
            tags: None,
        }
    }
}

/// A comment left under an article.
#[derive(Debug)]
pub struct Comment {
    pub id: i32,
    pub article_id: i32,
    pub author: String,
    pub comment: String,
    pub date: i64,
    pub client_ip: Option<String>,
}

/// One recorded visit of an article. It holds no reversible personal data:
/// pseudonyms, a coarsened address and a coarse place.
#[derive(Debug)]
pub struct ArticleStat {
    pub id: i64,
    pub article_id: i32,
    pub pseudo_ua: String,
    pub pseudo_ip: String,
    pub client_ua: String,
    pub client_ip: String,
    pub country: String,
    pub region: String,
    pub city: String,
    pub date: Option<i64>,
}

} // verus!
