//! The statements that depend on what is asked for, and the small decisions
//! that the data access makes on what the database returns.

use crate::db::entities::ArticleUpdate;
use crate::db::helpers::{
    field_equal_qmark, generate_field_equal_qmark, generate_where_placeholders,
};
use crate::db::queries::{
    query_text, Order, OrderBy, Query, QueryKind, QueryParts, QueryType, WhereClauseGlue,
};
use crate::db::ArticleSelector;
use crate::utils::text_utils::{joined, texts};
use vstd::prelude::*;

verus! {

/// The name under which an unknown user is shown.
pub const ANONYMOUS_USERNAME: &'static str = "Anonymous";

/// Appends `text` to `list`.
pub fn push_text(list: &mut Vec<String>, text: &str)
    ensures
        texts(final(list)@) == texts(old(list)@).push(text@),
{
    let ghost before = list@;
    list.push(text.to_owned());
    assert(texts(list@) =~= texts(before).push(text@));
}

/// The columns that a listing of articles reads. The content is read for
/// shorts, and where articles and shorts are listed together.
pub open spec fn article_fields(selector: ArticleSelector) -> Seq<Seq<char>> {
    let fields = seq![
        "articles.id"@,
        "articles.title"@,
        "articles.article_url"@,
        "articles.thumb_image"@,
        "articles.date"@,
        "articles.user_id"@,
        "articles.summary"@,
        "articles.published"@,
        "articles.short"@,
    ];
    if selector == ArticleSelector::Article {
        fields
    } else {
        fields.push("articles.content"@)
    }
}

/// The tables that a listing of articles reads: those of the tags too where
/// it is narrowed to tags.
pub open spec fn article_sources(tag_count: nat) -> Seq<Seq<char>> {
    if tag_count > 0 {
        seq!["articles"@, "article_tags"@, "tags"@]
    } else {
        seq!["articles"@]
    }
}

/// The condition that ties an article to its tags.
pub open spec fn tag_join() -> Seq<char> {
    "(tags.id = article_tags.tag_id AND article_tags.article_id = articles.id)"@
}

/// The conditions of a listing of articles: published ones only, of the
/// kind asked for, and, where it is narrowed to tags, one placeholder for
/// the name of each tag.
pub open spec fn article_conditions(selector: ArticleSelector, tag_count: nat) -> Seq<Seq<char>> {
    let published = seq!["articles.published = 1"@];
    let kind = match selector {
        ArticleSelector::Article => published.push("articles.short = 0"@),
        ArticleSelector::Short => published.push("articles.short = 1"@),
        ArticleSelector::All => published,
    };
    if tag_count > 0 {
        kind.push(tag_join()).push(
            joined(Seq::new(tag_count, |i: int| field_equal_qmark("tags.name"@)), " AND "@),
        )
    } else {
        kind
    }
}

fn article_fields_of(selector: ArticleSelector) -> (fields: Vec<String>)
    ensures
        texts(fields@) == article_fields(selector),
{
    let mut fields: Vec<String> = Vec::new();
    assert(texts(fields@) =~= Seq::<Seq<char>>::empty());
    push_text(&mut fields, "articles.id");
    push_text(&mut fields, "articles.title");
    push_text(&mut fields, "articles.article_url");
    push_text(&mut fields, "articles.thumb_image");
    push_text(&mut fields, "articles.date");
    push_text(&mut fields, "articles.user_id");
    push_text(&mut fields, "articles.summary");
    push_text(&mut fields, "articles.published");
    push_text(&mut fields, "articles.short");
    match selector {
        ArticleSelector::Article => {},
        _ => {
            push_text(&mut fields, "articles.content");
        },
    }
    assert(texts(fields@) =~= article_fields(selector));
    fields
}

fn article_sources_of(tag_count: usize) -> (from: Vec<String>)
    ensures
        texts(from@) == article_sources(tag_count as nat),
{
    let mut from: Vec<String> = Vec::new();
    assert(texts(from@) =~= Seq::<Seq<char>>::empty());
    push_text(&mut from, "articles");
    if tag_count > 0 {
        push_text(&mut from, "article_tags");
        push_text(&mut from, "tags");
    }
    assert(texts(from@) =~= article_sources(tag_count as nat));
    from
}

fn article_conditions_of(selector: ArticleSelector, tag_count: usize) -> (conditions: Vec<String>)
    ensures
        texts(conditions@) == article_conditions(selector, tag_count as nat),
{
    let mut conditions: Vec<String> = Vec::new();
    assert(texts(conditions@) =~= Seq::<Seq<char>>::empty());
    push_text(&mut conditions, "articles.published = 1");
    match selector {
        ArticleSelector::Article => {
            push_text(&mut conditions, "articles.short = 0");
        },
        ArticleSelector::Short => {
            push_text(&mut conditions, "articles.short = 1");
        },
        ArticleSelector::All => {},
    }
    if tag_count > 0 {
        push_text(
            &mut conditions,
            "(tags.id = article_tags.tag_id AND article_tags.article_id = articles.id)",
        );
        push_text(&mut conditions, generate_where_placeholders("tags.name", tag_count).as_str());
    }
    assert(texts(conditions@) =~= article_conditions(selector, tag_count as nat));
    conditions
}

/// The statement that lists `count` published articles from the row
/// `start` on, by their id in the given direction, narrowed to `tag_count`
/// tags whose names fill its placeholders.
pub fn articles_from_to_query(
    selector: ArticleSelector,
    start: i32,
    count: i32,
    tag_count: usize,
    order: Order,
) -> (text: String)
    ensures
        text@ == query_text(
            QueryParts {
                fields: article_fields(selector),
                kind: QueryKind::Select { from: article_sources(tag_count as nat) },
                conditions: Some(article_conditions(selector, tag_count as nat)),
                glue: Some(WhereClauseGlue::And),
                order: Some((order, "articles.id"@)),
                limit: Some(count),
                offset: Some(start),
            },
        ),
{
    Query::new(
        QueryType::Select { from: article_sources_of(tag_count) },
        article_fields_of(selector),
    ).where_and(article_conditions_of(selector, tag_count)).order(
        OrderBy::new(order, "articles.id".to_owned()),
    ).limit(count).offset(start).to_string()
}

/// The statement that counts the published articles of a kind, narrowed to
/// `tag_count` tags.
pub fn article_count_query(selector: ArticleSelector, tag_count: usize) -> (text: String)
    ensures
        text@ == query_text(
            QueryParts {
                fields: seq!["count(*)"@],
                kind: QueryKind::Select { from: article_sources(tag_count as nat) },
                conditions: Some(article_conditions(selector, tag_count as nat)),
                glue: Some(WhereClauseGlue::And),
                order: None,
                limit: None,
                offset: None,
            },
        ),
{
    let mut fields: Vec<String> = Vec::new();
    assert(texts(fields@) =~= Seq::<Seq<char>>::empty());
    push_text(&mut fields, "count(*)");
    assert(texts(fields@) =~= seq!["count(*)"@]);
    Query::new(QueryType::Select { from: article_sources_of(tag_count) }, fields).where_and(
        article_conditions_of(selector, tag_count),
    ).to_string()
}

/// `name = ?` where the field is to be set, nothing where it is not.
pub open spec fn assignment(set: bool, name: Seq<char>) -> Seq<Seq<char>> {
    if set {
        seq![field_equal_qmark(name)]
    } else {
        Seq::empty()
    }
}

/// The assignments of an update of an article: one for each field that the
/// update holds, in the order of the columns.
pub open spec fn update_assignments(update: ArticleUpdate) -> Seq<Seq<char>> {
    assignment(update.title is Some, "title"@) + assignment(
        update.article_url is Some,
        "article_url"@,
    ) + assignment(update.thumb_image is Some, "thumb_image"@) + assignment(
        update.user_id is Some,
        "user_id"@,
    ) + assignment(update.summary is Some, "summary"@) + assignment(
        update.content is Some,
        "content"@,
    ) + assignment(update.published is Some, "published"@)
}

fn push_assignment(fields: &mut Vec<String>, set: bool, name: &str)
    ensures
        texts(final(fields)@) == texts(old(fields)@) + assignment(set, name@),
{
    if set {
        push_text(fields, generate_field_equal_qmark(name).as_str());
        assert(texts(fields@) =~= texts(old(fields)@) + assignment(set, name@));
    } else {
        assert(texts(fields@) =~= texts(old(fields)@) + assignment(set, name@));
    }
}

/// The assignments of an update of an article.
pub fn update_article_fields(update: &ArticleUpdate) -> (fields: Vec<String>)
    ensures
        texts(fields@) == update_assignments(*update),
{
    let mut fields: Vec<String> = Vec::new();
    assert(texts(fields@) =~= Seq::<Seq<char>>::empty());
    push_assignment(&mut fields, update.title.is_some(), "title");
    push_assignment(&mut fields, update.article_url.is_some(), "article_url");
    push_assignment(&mut fields, update.thumb_image.is_some(), "thumb_image");
    push_assignment(&mut fields, update.user_id.is_some(), "user_id");
    push_assignment(&mut fields, update.summary.is_some(), "summary");
    push_assignment(&mut fields, update.content.is_some(), "content");
    push_assignment(&mut fields, update.published.is_some(), "published");
    assert(texts(fields@) =~= update_assignments(*update));
    fields
}

/// The assignments of an update of the full text of an article: title and
/// content, each where the update holds it.
pub open spec fn fulltext_assignments(update: ArticleUpdate) -> Seq<Seq<char>> {
    assignment(update.title is Some, "title"@) + assignment(update.content is Some, "content"@)
}

/// The assignments of an update of the full text of an article.
pub fn update_fulltext_fields(update: &ArticleUpdate) -> (fields: Vec<String>)
    ensures
        texts(fields@) == fulltext_assignments(*update),
{
    let mut fields: Vec<String> = Vec::new();
    assert(texts(fields@) =~= Seq::<Seq<char>>::empty());
    push_assignment(&mut fields, update.title.is_some(), "title");
    push_assignment(&mut fields, update.content.is_some(), "content");
    assert(texts(fields@) =~= fulltext_assignments(*update));
    fields
}

/// The statement that sets `fields` in the row of `table` that has the id.
pub fn update_by_id_query(table: &str, fields: Vec<String>) -> (text: String)
    ensures
        text@ == query_text(
            QueryParts {
                fields: texts(fields@),
                kind: QueryKind::Update { table: table@ },
                conditions: Some(seq!["id = ?"@]),
                glue: None,
                order: None,
                limit: None,
                offset: None,
            },
        ),
{
    Query::new(QueryType::Update { table: table.to_owned() }, fields).where_clause(
        "id = ?".to_owned(),
    ).to_string()
}

/// What an update of an article has to do.
#[derive(Debug, Clone, Copy, PartialEq, Eq, Structural)]
pub struct UpdatePlan {
    /// Whether columns of the article are set.
    pub set_fields: bool,
    /// Whether the tags of the article are replaced.
    pub replace_tags: bool,
}

/// What an update of an article has to do: nothing at all where it holds
/// neither a field nor tags.
pub fn update_plan(update: &ArticleUpdate) -> (plan: UpdatePlan)
    ensures
        plan.set_fields == (update_assignments(*update).len() > 0),
        plan.replace_tags == update.tags is Some,
{
    let fields = update_article_fields(update);
    UpdatePlan { set_fields: fields.len() > 0, replace_tags: update.tags.is_some() }
}

/// How an article is read from its row: as asked for, else by what the row
/// is, a short or an article with its content.
pub fn selector_for_row(short: i32, asked: Option<ArticleSelector>) -> (selector: ArticleSelector)
    ensures
        selector == match asked {
            Some(asked) => asked,
            None => if short == 0 {
                ArticleSelector::All
            } else {
                ArticleSelector::Short
            },
        },
{
    match asked {
        Some(asked) => asked,
        None => if short == 0 {
            ArticleSelector::All
        } else {
            ArticleSelector::Short
        },
    }
}

/// Whether a row of an article holds the content of the article, and
/// whether it holds its address.
pub fn row_holds(selector: ArticleSelector) -> (holds: (bool, bool))
    ensures
        holds.0 == (selector != ArticleSelector::Article),
        holds.1 == (selector != ArticleSelector::Short),
{
    match selector {
        ArticleSelector::All => (true, true),
        ArticleSelector::Short => (true, false),
        ArticleSelector::Article => (false, true),
    }
}

/// The name of a user, or `Anonymous` for one that is not known.
pub fn username_or_anonymous(name: Option<String>) -> (shown: String)
    ensures
        shown@ == match name {
            Some(name) => name@,
            None => ANONYMOUS_USERNAME@,
        },
{
    match name {
        Some(name) => name,
        None => ANONYMOUS_USERNAME.to_owned(),
    }
}

/// Whether a count says that an entry exists: it has to be one.
pub fn entry_exists(count: i64) -> (exists: bool)
    ensures
        exists == (count == 1),
{
    count == 1
}

/// The id of a row that was inserted, where it fits an `i32`.
pub fn rowid_to_i32(rowid: i64) -> (id: Option<i32>)
    ensures
        id == if i32::MIN <= rowid <= i32::MAX {
            Some(rowid as i32)
        } else {
            None::<i32>
        },
{
    if rowid < i32::MIN as i64 || rowid > i32::MAX as i64 {
        None
    } else {
        Some(rowid as i32)
    }
}

/// The date under which a visit is stored: its own, or the present moment
/// where it has none.
pub fn stat_date(date: Option<i64>, now: i64) -> (stored: i64)
    ensures
        stored == match date {
            Some(date) => date,
            None => now,
        },
{
    match date {
        Some(date) => date,
        None => now,
    }
}

} // verus!
