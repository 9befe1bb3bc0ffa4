//! The values that travel over the HTTP interface, and how the rows of the
//! database turn into them.

use crate::config::SiteInfo;
use crate::db::entities::{Article, ArticleUpdate, Comment, Tag};
use crate::utils::regex_utils::{links_replaced, REL_LINK_PATTERN};
use crate::utils::text_utils::{
    from_chars, has_scheme_mark, relative_links_to_absolute, single_link_to_absolute, to_chars,
    utf8_len,
};
use crate::utils::time_utils::current_datetime_rfc2822;
use crate::web::helpers::{article_url, generate_article_url};
use vstd::string::StringExecFns;
use crate::utils::option_bool_to_i32;
use crate::utils::serde_utils::{empty_string_to_none, non_empty};
use crate::utils::number_utils::{decimal, i64_to_string};
use crate::utils::time_utils::{
    calendar_reaches, current_timestamp, timestamp_to_date_string, DateFormat,
};
use vstd::prelude::*;

verus! {

pub use crate::db::entities::Tag as TagDto;

/// An article as clients see it.
#[derive(Debug)]
pub struct ArticleDto {
    pub id: i32,
    pub date: String,
    pub summary: String,
    pub thumb_image: Option<String>,
    pub author: String,
    pub comments_count: i64,
    pub title: String,
    pub article_url: Option<String>,
    pub content: Option<String>,
    pub tags: Vec<TagDto>,
}

impl ArticleDto {
    /// The article as clients see it, with its date written as `date`.
    pub fn from_article(article: Article, date: String) -> (dto: Self)
        ensures
            dto.id == article.id,
            dto.date == date,
            dto.summary == article.summary,
            dto.thumb_image == article.thumb_image,
            dto.author == article.author,
            dto.comments_count == article.comments_count,
            dto.title == article.title,
            dto.article_url == article.article_url,
            dto.content == article.content,
            dto.tags == article.tags,
    {
        Self {
            id: article.id,
            date,
            summary: article.summary,
            thumb_image: article.thumb_image,
            author: article.author,
            comments_count: article.comments_count,
            title: article.title,
            article_url: article.article_url,
            content: article.content,
            tags: article.tags,
        }
    }

    /// The article as clients see it, with its date in the local time zone.
    /// `None` exactly where the calendar does not reach the date.
    pub fn try_from_article(article: Article) -> (dto: Option<Self>)
        ensures
            dto is Some <==> calendar_reaches(article.date),
            match dto {
                Some(dto) => {
                    &&& dto.id == article.id
                    &&& dto.summary == article.summary
                    &&& dto.thumb_image == article.thumb_image
                    &&& dto.author == article.author
                    &&& dto.comments_count == article.comments_count
                    &&& dto.title == article.title
                    &&& dto.article_url == article.article_url
                    &&& dto.content == article.content
                    &&& dto.tags == article.tags
                },
                None => true,
            },
    {
        match timestamp_to_date_string(article.date, DateFormat::Standard) {
            Some(date) => Some(Self::from_article(article, date)),
            None => None,
        }
    }
}

/// A comment as clients see it.
#[derive(Debug)]
pub struct CommentDto {
    pub id: i32,
    pub article_id: Option<i32>,
    pub author: String,
    pub comment: String,
    pub date: String,
}

impl CommentDto {
    /// The comment as clients see it, with its date written as `date`.
    pub fn from_comment(comment: Comment, date: String) -> (dto: Self)
        ensures
            dto.id == comment.id,
            dto.article_id == Some(comment.article_id),
            dto.author == comment.author,
            dto.comment == comment.comment,
            dto.date == date,
    {
        Self {
            id: comment.id,
            article_id: Some(comment.article_id),
            author: comment.author,
            comment: comment.comment,
            date,
        }
    }

    /// The comment as clients see it, with its date in the local time zone.
    /// `None` exactly where the calendar does not reach the date.
    pub fn try_from_comment(comment: Comment) -> (dto: Option<Self>)
        ensures
            dto is Some <==> calendar_reaches(comment.date),
            match dto {
                Some(dto) => {
                    &&& dto.id == comment.id
                    &&& dto.article_id == Some(comment.article_id)
                    &&& dto.author == comment.author
                    &&& dto.comment == comment.comment
                },
                None => true,
            },
    {
        match timestamp_to_date_string(comment.date, DateFormat::Standard) {
            Some(date) => Some(Self::from_comment(comment, date)),
            None => None,
        }
    }

    /// The same comment without the article it belongs to.
    pub fn remove_article_id(self) -> (dto: Self)
        ensures
            dto.article_id is None,
            dto.id == self.id,
            dto.author == self.author,
            dto.comment == self.comment,
            dto.date == self.date,
    {
        let mut dto = self;
        dto.article_id = None;
        dto
    }
}

/// A tag of an imported article.
#[derive(Debug, Clone)]
pub struct ImportedArticleTagDto {
    pub id: i32,
    pub name: Option<String>,
}

/// An article as the authoring software hands it in. Every field may be
/// missing. `thumb_image` tells a missing field, `None`, from one that is
/// null, `Some(None)`.
#[derive(Debug, Clone)]
pub struct ImportedArticleDto {
    pub id: Option<i32>,
    pub title: Option<String>,
    pub article_url: Option<String>,
    pub article_url_bis: Option<String>,
    pub thumb_image: Option<Option<String>>,
    pub user_id: Option<i32>,
    pub summary: Option<String>,
    pub content: Option<String>,
    pub published: Option<bool>,
    pub tags: Option<Vec<ImportedArticleTagDto>>,
    pub short: Option<bool>,
    pub action: Option<u32>,
}

/// The text of an optional field, empty where the field is missing.
pub open spec fn text_or_default(field: Option<String>) -> Seq<char> {
    match field {
        Some(text) => text@,
        None => Seq::empty(),
    }
}

/// A tag as contracts see it: its id, its name and its main tag.
pub open spec fn tag_parts(tag: Tag) -> (i32, Seq<char>, i32) {
    (tag.id, tag.name@, tag.main_tag)
}

/// The tag that an imported tag becomes: a missing name is empty, and the
/// main tag is one.
pub open spec fn imported_tag(dto: ImportedArticleTagDto) -> (i32, Seq<char>, i32) {
    (dto.id, text_or_default(dto.name), 1i32)
}

/// The tags that imported tags become, in the same order.
pub open spec fn imported_tags(dtos: Seq<ImportedArticleTagDto>) -> Seq<(i32, Seq<char>, i32)> {
    dtos.map_values(|dto: ImportedArticleTagDto| imported_tag(dto))
}

fn text_or_empty(field: Option<String>) -> (text: String)
    ensures
        text@ == text_or_default(field),
{
    match field {
        Some(text) => text,
        None => String::new(),
    }
}

impl Tag {
    /// The tag that an imported tag stands for.
    pub fn from_imported(dto: ImportedArticleTagDto) -> (tag: Self)
        ensures
            tag_parts(tag) == imported_tag(dto),
    {
        Self { id: dto.id, name: text_or_empty(dto.name), main_tag: 1 }
    }
}

impl From<ImportedArticleTagDto> for Tag {
    fn from(dto: ImportedArticleTagDto) -> (tag: Self) {
        Tag::from_imported(dto)
    }
}

impl vstd::std_specs::convert::FromSpecImpl<ImportedArticleTagDto> for Tag {
    open spec fn obeys_from_spec() -> bool {
        false
    }

    open spec fn from_spec(dto: ImportedArticleTagDto) -> Self {
        arbitrary()
    }
}

fn tags_from_imported(dtos: Vec<ImportedArticleTagDto>) -> (tags: Vec<Tag>)
    ensures
        tags@.map_values(|tag: Tag| tag_parts(tag)) == imported_tags(dtos@),
{
    let mut tags: Vec<Tag> = Vec::new();
    let mut i: usize = 0;
    while i < dtos.len()
        invariant
            i <= dtos@.len(),
            tags@.len() == i,
            forall|k: int| 0 <= k < i ==> tag_parts(#[trigger] tags@[k]) == imported_tag(dtos@[k]),
        decreases dtos@.len() - i,
    {
        let name = match &dtos[i].name {
            Some(name) => Some(name.clone()),
            None => None,
        };
        tags.push(Tag::from_imported(ImportedArticleTagDto { id: dtos[i].id, name }));
        i += 1;
    }
    assert(tags@.map_values(|tag: Tag| tag_parts(tag)) =~= imported_tags(dtos@));
    tags
}

/// The address of an imported article: the field `articleURL`, or
/// `articleUrl` where that one is missing; an empty address counts as none.
pub open spec fn imported_url(dto: ImportedArticleDto) -> Option<Seq<char>> {
    non_empty(
        match dto.article_url {
            Some(url) => Some(url@),
            None => match dto.article_url_bis {
                Some(url) => Some(url@),
                None => None,
            },
        },
    )
}

/// The thumbnail of an imported article: an empty one, a null one and a
/// missing one all count as none.
pub open spec fn imported_thumb(dto: ImportedArticleDto) -> Option<Seq<char>> {
    match dto.thumb_image {
        Some(Some(image)) if image@.len() > 0 => Some(image@),
        _ => None,
    }
}

/// The characters of an optional string.
pub open spec fn option_text(field: Option<String>) -> Option<Seq<char>> {
    match field {
        Some(text) => Some(text@),
        None => None,
    }
}

impl Article {
    /// The article to insert for an imported one, dated `now`. Its id is not
    /// known yet and is -1; a missing author is the user 1; missing flags are
    /// off.
    pub fn from_imported(dto: ImportedArticleDto, now: i64) -> (article: Self)
        ensures
            article.id == -1,
            article.title@ == text_or_default(dto.title),
            option_text(article.article_url) == imported_url(dto),
            option_text(article.thumb_image) == imported_thumb(dto),
            article.date == now,
            article.user_id == match dto.user_id {
                Some(user_id) => user_id,
                None => 1i32,
            },
            article.summary@ == text_or_default(dto.summary),
            article.content == dto.content,
            article.published == if dto.published == Some(true) {
                1i32
            } else {
                0i32
            },
            article.short == if dto.short == Some(true) {
                1i32
            } else {
                0i32
            },
            article.tags@.map_values(|tag: Tag| tag_parts(tag)) == match dto.tags {
                Some(tags) => imported_tags(tags@),
                None => Seq::empty(),
            },
            article.author@ == Seq::<char>::empty(),
            article.comments_count == 0,
    {
        let article_url = empty_string_to_none(
            if dto.article_url.is_some() {
                dto.article_url
            } else {
                dto.article_url_bis
            },
        );
        let thumb_image = match dto.thumb_image {
            Some(image) => empty_string_to_none(image),
            None => None,
        };
        let tags = match dto.tags {
            Some(tags) => tags_from_imported(tags),
            None => Vec::new(),
        };
        assert(dto.tags is None ==> tags@.map_values(|tag: Tag| tag_parts(tag)) =~= Seq::empty());
        Self {
            id: -1,
            title: text_or_empty(dto.title),
            article_url,
            thumb_image,
            date: now,
            user_id: match dto.user_id {
                Some(user_id) => user_id,
                None => 1,
            },
            summary: text_or_empty(dto.summary),
            content: dto.content,
            published: option_bool_to_i32(dto.published),
            short: option_bool_to_i32(dto.short),
            tags,
            author: String::new(),
            comments_count: 0,
        }
    }
}

impl From<ImportedArticleDto> for Article {
    fn from(dto: ImportedArticleDto) -> (article: Self) {
        Article::from_imported(dto, current_timestamp())
    }
}

impl vstd::std_specs::convert::FromSpecImpl<ImportedArticleDto> for Article {
    open spec fn obeys_from_spec() -> bool {
        false
    }

    open spec fn from_spec(dto: ImportedArticleDto) -> Self {
        arbitrary()
    }
}

impl ArticleUpdate {
    /// The update that an imported article asks for: each field that it
    /// holds, and no other. A missing id is zero.
    pub fn from_imported(dto: ImportedArticleDto) -> (update: Self)
        ensures
            update.id == match dto.id {
                Some(id) => id,
                None => 0i32,
            },
            update.title == dto.title,
            update.article_url == dto.article_url,
            update.thumb_image == dto.thumb_image,
            update.user_id == dto.user_id,
            update.summary == dto.summary,
            update.content == dto.content,
            update.published == match dto.published {
                Some(true) => Some(1i32),
                Some(false) => Some(0i32),
                None => None,
            },
            match dto.tags {
                Some(tags) => update.tags is Some && update.tags->0@.map_values(
                    |tag: Tag| tag_parts(tag),
                ) == imported_tags(tags@),
                None => update.tags is None,
            },
    {
        Self {
            id: match dto.id {
                Some(id) => id,
                None => 0,
            },
            title: dto.title,
            article_url: dto.article_url,
            thumb_image: dto.thumb_image,
            user_id: dto.user_id,
            summary: dto.summary,
            content: dto.content,
            published: match dto.published {
                Some(true) => Some(1),
                Some(false) => Some(0),
                None => None,
            },
            tags: match dto.tags {
                Some(tags) => Some(tags_from_imported(tags)),
                None => None,
            },
        }
    }
}

impl From<ImportedArticleDto> for ArticleUpdate {
    fn from(dto: ImportedArticleDto) -> (update: Self) {
        ArticleUpdate::from_imported(dto)
    }
}

impl vstd::std_specs::convert::FromSpecImpl<ImportedArticleDto> for ArticleUpdate {
    open spec fn obeys_from_spec() -> bool {
        false
    }

    open spec fn from_spec(dto: ImportedArticleDto) -> Self {
        arbitrary()
    }
}

/// The terms of a search.
#[derive(Debug)]
pub struct SearchBody {
    pub included: Vec<String>,
}

/// One article that a search found.
#[derive(Debug)]
pub struct SearchResult {
    pub snippet: String,
    pub id: i32,
    pub title: String,
    pub article_url: String,
    pub date: String,
}

/// The name under which an article is reached: its id for a short, and for
/// an article without an address; its address otherwise.
pub open spec fn reach_name(article: Article) -> Seq<char> {
    if article.short == 1 {
        decimal(article.id as int)
    } else {
        match article.article_url {
            Some(url) => url@,
            None => decimal(article.id as int),
        }
    }
}

/// The name under which `article` is reached.
pub fn article_reach_name(id: i32, short: i32, article_url: Option<String>) -> (name: String)
    ensures
        name@ == if short == 1 {
            decimal(id as int)
        } else {
            match article_url {
                Some(url) => url@,
                None => decimal(id as int),
            }
        },
{
    if short == 1 {
        i64_to_string(id as i64)
    } else {
        match article_url {
            Some(url) => url,
            None => i64_to_string(id as i64),
        }
    }
}

impl SearchResult {
    /// The search result for an article that the search found, with its date
    /// written as `date`. The summary of such an article is the snippet.
    pub fn from_article(article: Article, date: String) -> (found: Self)
        ensures
            found.snippet == article.summary,
            found.id == article.id,
            found.title == article.title,
            found.article_url@ == reach_name(article),
            found.date == date,
    {
        let article_url = article_reach_name(article.id, article.short, article.article_url);
        Self {
            snippet: article.summary,
            id: article.id,
            title: article.title,
            article_url,
            date,
        }
    }

    /// The search result for an article, with its date in the local time
    /// zone. `None` exactly where the calendar does not reach the date.
    pub fn try_from_article(article: Article) -> (found: Option<Self>)
        ensures
            found is Some <==> calendar_reaches(article.date),
            match found {
                Some(found) => {
                    &&& found.snippet == article.summary
                    &&& found.id == article.id
                    &&& found.title == article.title
                    &&& found.article_url@ == reach_name(article)
                },
                None => true,
            },
    {
        match timestamp_to_date_string(article.date, DateFormat::Standard) {
            Some(date) => Some(Self::from_article(article, date)),
            None => None,
        }
    }
}

/// Whether a request went well.
#[derive(Debug, Clone, Copy, PartialEq, Eq, Structural)]
pub enum JsonStatusType {
    Success,
    Error,
}

/// The word that stands for a status.
pub open spec fn status_text(status: JsonStatusType) -> Seq<char> {
    match status {
        JsonStatusType::Success => "success"@,
        JsonStatusType::Error => "error"@,
    }
}

impl JsonStatusType {
    /// The word that stands for the status: `success` or `error`.
    pub fn to_string(&self) -> (text: String)
        ensures
            text@ == status_text(*self),
    {
        match self {
            JsonStatusType::Success => "success".to_owned(),
            JsonStatusType::Error => "error".to_owned(),
        }
    }
}

/// The outcome of a request, as some responses report it.
#[derive(Debug)]
pub struct JsonStatus {
    pub status: String,
    pub message: String,
    pub id: Option<i32>,
}

impl JsonStatus {
    /// A status with a message and no id.
    pub fn new(status: JsonStatusType, message: &str) -> (json: Self)
        ensures
            json.status@ == status_text(status),
            json.message@ == message@,
            json.id is None,
    {
        Self { status: status.to_string(), message: message.to_owned(), id: None }
    }

    /// A status with a message, about the article `id`.
    pub fn new_with_id(status: JsonStatusType, message: &str, id: i32) -> (json: Self)
        ensures
            json.status@ == status_text(status),
            json.message@ == message@,
            json.id == Some(id),
    {
        Self { status: status.to_string(), message: message.to_owned(), id: Some(id) }
    }
}

/// One article in the feed.
#[derive(Debug)]
pub struct RssFeedEntry {
    pub title: String,
    pub link: String,
    pub date: String,
    pub media: Option<String>,
    pub description: String,
}

/// The feed of the site: what it says of the site, and its articles.
#[derive(Debug)]
pub struct RssFeed<'a> {
    pub title: &'a str,
    pub root: &'a str,
    pub articles_root: &'a str,
    pub shorts_root: &'a str,
    pub description: &'a str,
    pub build_date: String,
    pub rss_full_url: &'a str,
    pub items: Vec<RssFeedEntry>,
    pub max_rss_length: usize,
}

/// The link of an article in the feed: under the root of the shorts for a
/// short, under the root of the articles otherwise.
pub open spec fn feed_link(
    root: Seq<char>,
    articles_root: Seq<char>,
    shorts_root: Seq<char>,
    article: Article,
) -> Seq<char> {
    article_url(
        root,
        if article.short == 1 {
            shorts_root
        } else {
            articles_root
        },
        reach_name(article),
    )
}

/// The address of a thumbnail in the feed. One that begins with a slash
/// gets the root of the site before it; another relative one gets the root
/// and a slash; one that holds `://` is absolute and kept.
pub open spec fn media_link(root: Seq<char>, url: Seq<char>) -> Seq<char> {
    if url.len() > 0 && url[0] == '/' {
        root + url
    } else if !has_scheme_mark(url) {
        root + "/"@ + url
    } else {
        url
    }
}

/// The address of the thumbnail `url` for the feed of the site `root`.
pub fn media_url(root: &str, url: String) -> (media: String)
    ensures
        media@ == media_link(root@, url@),
{
    let chars = to_chars(url.as_str());
    if chars.len() > 0 && chars[0] == '/' {
        root.to_owned().concat(url.as_str())
    } else {
        let mut rooted = root.to_owned();
        rooted.append("/");
        match single_link_to_absolute(url.as_str(), rooted.as_str()) {
            Some(absolute) => absolute,
            None => url,
        }
    }
}

/// What follows a description that was cut: an ellipsis and a link to the
/// whole article.
pub open spec fn read_more(link: Seq<char>) -> Seq<char> {
    "...<p><b><a href=\""@ + link + "\">Suite disponible sur le site</a></b></p>"@
}

/// The text of an article for the feed, before its links are made absolute:
/// the content, or the summary where there is no content. A text of more
/// than `max_rss_length` bytes is cut to its first `max_rss_length`
/// characters, and a link to the whole article follows.
pub open spec fn feed_text(text: Seq<char>, max_rss_length: nat, link: Seq<char>) -> Seq<char> {
    if utf8_len(text) > max_rss_length {
        text.take(
            if text.len() < max_rss_length {
                text.len() as int
            } else {
                max_rss_length as int
            },
        ) + read_more(link)
    } else {
        text
    }
}

/// Cuts a description that is longer than `max_rss_length` bytes and puts a
/// link to the whole article behind it.
pub fn shorten_description(description: String, max_rss_length: usize, link: &str) -> (text: String)
    ensures
        text@ == feed_text(description@, max_rss_length as nat, link@),
{
    if description.as_str().as_bytes().len() > max_rss_length {
        let chars = to_chars(description.as_str());
        let kept: usize = if chars.len() < max_rss_length {
            chars.len()
        } else {
            max_rss_length
        };
        let mut text = from_chars(&chars, 0, kept);
        assert(text@ =~= description@.take(kept as int));
        text.append("...<p><b><a href=\"");
        text.append(link);
        text.append("\">Suite disponible sur le site</a></b></p>");
        text
    } else {
        description
    }
}

/// Whether `entry` is the entry of `article` in `feed`, dated `date`.
pub open spec fn is_feed_entry(
    entry: RssFeedEntry,
    root: Seq<char>,
    articles_root: Seq<char>,
    shorts_root: Seq<char>,
    max_rss_length: nat,
    article: Article,
    date: String,
) -> bool {
    let link = feed_link(root, articles_root, shorts_root, article);
    &&& entry.title == article.title
    &&& entry.link@ == link
    &&& entry.date == date
    &&& option_text(entry.media) == match article.thumb_image {
        Some(url) => Some(media_link(root, url@)),
        None => None,
    }
    &&& entry.description@ == links_replaced(
        REL_LINK_PATTERN@,
        feed_text(
            match article.content {
                Some(content) => content@,
                None => article.summary@,
            },
            max_rss_length,
            link,
        ),
        root,
    )
}

impl<'a> RssFeed<'a> {
    /// An empty feed of the site, built at the moment that `build_date`
    /// names.
    pub fn new_at(site_info: &'a SiteInfo, max_rss_length: usize, build_date: String) -> (feed: Self)
        ensures
            feed.title@ == site_info.title@,
            feed.root@ == site_info.root@,
            feed.articles_root@ == site_info.articles_root@,
            feed.shorts_root@ == site_info.shorts_root@,
            feed.description@ == site_info.description@,
            feed.rss_full_url@ == site_info.rss_full_url@,
            feed.build_date == build_date,
            feed.items@.len() == 0,
            feed.max_rss_length == max_rss_length,
    {
        Self {
            title: site_info.title.as_str(),
            root: site_info.root.as_str(),
            articles_root: site_info.articles_root.as_str(),
            shorts_root: site_info.shorts_root.as_str(),
            description: site_info.description.as_str(),
            build_date,
            rss_full_url: site_info.rss_full_url.as_str(),
            items: Vec::new(),
            max_rss_length,
        }
    }

    /// An empty feed of the site, built now.
    pub fn new(site_info: &'a SiteInfo, max_rss_length: usize) -> (feed: Self)
        ensures
            feed.title@ == site_info.title@,
            feed.root@ == site_info.root@,
            feed.articles_root@ == site_info.articles_root@,
            feed.shorts_root@ == site_info.shorts_root@,
            feed.description@ == site_info.description@,
            feed.rss_full_url@ == site_info.rss_full_url@,
            feed.items@.len() == 0,
            feed.max_rss_length == max_rss_length,
    {
        Self::new_at(site_info, max_rss_length, current_datetime_rfc2822())
    }

    /// Adds `article` to the feed, as an entry dated `date`.
    pub fn add_item_at(&mut self, article: Article, date: String)
        ensures
            final(self).items@.len() == old(self).items@.len() + 1,
            final(self).items@.drop_last() == old(self).items@,
            is_feed_entry(
                final(self).items@.last(),
                old(self).root@,
                old(self).articles_root@,
                old(self).shorts_root@,
                old(self).max_rss_length as nat,
                article,
                date,
            ),
            final(self).title == old(self).title,
            final(self).root == old(self).root,
            final(self).articles_root == old(self).articles_root,
            final(self).shorts_root == old(self).shorts_root,
            final(self).description == old(self).description,
            final(self).build_date == old(self).build_date,
            final(self).rss_full_url == old(self).rss_full_url,
            final(self).max_rss_length == old(self).max_rss_length,
    {
        let name = article_reach_name(article.id, article.short, article.article_url);
        let link = if article.short == 1 {
            generate_article_url(self.root, self.shorts_root, name.as_str())
        } else {
            generate_article_url(self.root, self.articles_root, name.as_str())
        };
        let media = match article.thumb_image {
            Some(url) => Some(media_url(self.root, url)),
            None => None,
        };
        let description = match article.content {
            Some(content) => content,
            None => article.summary,
        };
        let description = shorten_description(description, self.max_rss_length, link.as_str());
        let description = relative_links_to_absolute(description.as_str(), self.root);
        let ghost before = self.items@;
        self.items.push(RssFeedEntry { title: article.title, link, date, media, description });
        assert(self.items@.drop_last() =~= before);
    }

    /// Adds `article` to the feed, as an entry dated now.
    pub fn add_item(&mut self, article: Article)
        ensures
            final(self).items@.len() == old(self).items@.len() + 1,
            final(self).items@.drop_last() == old(self).items@,
            exists|date: String|
                is_feed_entry(
                    final(self).items@.last(),
                    old(self).root@,
                    old(self).articles_root@,
                    old(self).shorts_root@,
                    old(self).max_rss_length as nat,
                    article,
                    date,
                ),
            final(self).title == old(self).title,
            final(self).root == old(self).root,
            final(self).articles_root == old(self).articles_root,
            final(self).shorts_root == old(self).shorts_root,
            final(self).description == old(self).description,
            final(self).build_date == old(self).build_date,
            final(self).rss_full_url == old(self).rss_full_url,
            final(self).max_rss_length == old(self).max_rss_length,
    {
        self.add_item_at(article, current_datetime_rfc2822())
    }
}

} // verus!
