use blog_backend::db::entities::{ArticleUpdate, Tag};
use blog_backend::db::queries::Order;
use blog_backend::db::statements::{
    article_count_query, articles_from_to_query, entry_exists, push_text, row_holds,
    rowid_to_i32, selector_for_row, stat_date, update_article_fields, update_by_id_query,
    update_fulltext_fields, update_plan, username_or_anonymous,
};
use blog_backend::db::ArticleSelector;

fn empty_update() -> ArticleUpdate {
    ArticleUpdate {
        id: 3,
        title: None,
        article_url: None,
        thumb_image: None,
        user_id: None,
        summary: None,
        content: None,
        published: None,
        tags: None,
    }
}

#[test]
fn articles_listing_statement() {
    assert_eq!(
        articles_from_to_query(ArticleSelector::Article, 20, 10, 0, Order::Desc),
        "SELECT articles.id,articles.title,articles.article_url,articles.thumb_image,\
         articles.date,articles.user_id,articles.summary,articles.published,articles.short \
         FROM articles WHERE articles.published = 1 AND articles.short = 0 \
         ORDER BY articles.id DESC LIMIT 10 OFFSET 20 "
    );
    assert_eq!(
        articles_from_to_query(ArticleSelector::Short, 0, 5, 2, Order::Asc),
        "SELECT articles.id,articles.title,articles.article_url,articles.thumb_image,\
         articles.date,articles.user_id,articles.summary,articles.published,articles.short,\
         articles.content FROM articles,article_tags,tags WHERE articles.published = 1 \
         AND articles.short = 1 AND (tags.id = article_tags.tag_id AND \
         article_tags.article_id = articles.id) AND tags.name = ? AND tags.name = ? \
         ORDER BY articles.id ASC LIMIT 5 OFFSET 0 "
    );
    assert_eq!(
        article_count_query(ArticleSelector::All, 0),
        "SELECT count(*) FROM articles WHERE articles.published = 1 "
    );
    assert_eq!(
        article_count_query(ArticleSelector::Article, 1),
        "SELECT count(*) FROM articles,article_tags,tags WHERE articles.published = 1 \
         AND articles.short = 0 AND (tags.id = article_tags.tag_id AND \
         article_tags.article_id = articles.id) AND tags.name = ? "
    );
}

#[test]
fn update_statement_names_the_fields_that_are_set() {
    let mut update = empty_update();
    assert!(update_article_fields(&update).is_empty());
    let plan = update_plan(&update);
    assert!(!plan.set_fields && !plan.replace_tags);
    update.tags = Some(vec![Tag { id: 1, name: "t".to_string(), main_tag: 1 }]);
    let plan = update_plan(&update);
    assert!(!plan.set_fields && plan.replace_tags);
    update.title = Some("t".to_string());
    update.thumb_image = Some(None);
    update.published = Some(0);
    update.content = Some("c".to_string());
    assert_eq!(
        update_article_fields(&update),
        vec!["title = ?", "thumb_image = ?", "content = ?", "published = ?"]
    );
    assert_eq!(update_fulltext_fields(&update), vec!["title = ?", "content = ?"]);
    assert!(update_plan(&update).set_fields);
    assert_eq!(
        update_by_id_query("articles", update_article_fields(&update)),
        "UPDATE articles SET title = ?,thumb_image = ?,content = ?,published = ? WHERE id = ? "
    );
    update.article_url = Some("u".to_string());
    update.user_id = Some(2);
    update.summary = Some("s".to_string());
    assert_eq!(
        update_article_fields(&update),
        vec![
            "title = ?", "article_url = ?", "thumb_image = ?", "user_id = ?", "summary = ?",
            "content = ?", "published = ?"
        ]
    );
}

#[test]
fn small_decisions_of_the_data_access() {
    assert_eq!(selector_for_row(0, None), ArticleSelector::All);
    assert_eq!(selector_for_row(1, None), ArticleSelector::Short);
    assert_eq!(selector_for_row(7, None), ArticleSelector::Short);
    assert_eq!(selector_for_row(1, Some(ArticleSelector::Article)), ArticleSelector::Article);
    assert_eq!(row_holds(ArticleSelector::All), (true, true));
    assert_eq!(row_holds(ArticleSelector::Short), (true, false));
    assert_eq!(row_holds(ArticleSelector::Article), (false, true));
    assert_eq!(username_or_anonymous(None), "Anonymous");
    assert_eq!(username_or_anonymous(Some("Bob".to_string())), "Bob");
    assert!(entry_exists(1));
    assert!(!entry_exists(0) && !entry_exists(2) && !entry_exists(-1));
    assert_eq!(rowid_to_i32(5), Some(5));
    assert_eq!(rowid_to_i32(i32::MAX as i64), Some(i32::MAX));
    assert_eq!(rowid_to_i32(i32::MAX as i64 + 1), None);
    assert_eq!(rowid_to_i32(i32::MIN as i64 - 1), None);
    assert_eq!(stat_date(Some(4), 9), 4);
    assert_eq!(stat_date(None, 9), 9);
    let mut list = vec!["a".to_string()];
    push_text(&mut list, "b");
    assert_eq!(list, vec!["a", "b"]);
}
