use blog_backend::config::SiteInfo;
use blog_backend::db::entities::Article;
use blog_backend::web::dtos::{media_url, shorten_description, RssFeed};

fn site() -> SiteInfo {
    SiteInfo {
        title: "Blog".to_string(),
        root: "https://dkvz.eu".to_string(),
        rss_full_url: "https://dkvz.eu/rss.xml".to_string(),
        articles_root: "articles".to_string(),
        shorts_root: "breves".to_string(),
        description: "About".to_string(),
    }
}

fn article(id: i32, short: i32, url: Option<&str>, thumb: Option<&str>, content: Option<&str>) -> Article {
    Article {
        id,
        title: "Title".to_string(),
        article_url: url.map(|u| u.to_string()),
        thumb_image: thumb.map(|u| u.to_string()),
        date: 0,
        user_id: 1,
        summary: "Summary".to_string(),
        content: content.map(|u| u.to_string()),
        published: 1,
        short,
        tags: Vec::new(),
        author: String::new(),
        comments_count: 0,
    }
}

#[test]
fn feed_starts_empty() {
    let info = site();
    let feed = RssFeed::new_at(&info, 2500, "now".to_string());
    assert_eq!(feed.title, "Blog");
    assert_eq!(feed.root, "https://dkvz.eu");
    assert_eq!(feed.articles_root, "articles");
    assert_eq!(feed.shorts_root, "breves");
    assert_eq!(feed.description, "About");
    assert_eq!(feed.rss_full_url, "https://dkvz.eu/rss.xml");
    assert_eq!(feed.build_date, "now");
    assert_eq!(feed.max_rss_length, 2500);
    assert!(feed.items.is_empty());
    let feed = RssFeed::new(&info, 10);
    assert!(!feed.build_date.is_empty());
}

#[test]
fn feed_entry_of_an_article() {
    let info = site();
    let mut feed = RssFeed::new_at(&info, 2500, "now".to_string());
    feed.add_item_at(
        article(5, 0, Some("some_url"), Some("/img/a.png"), Some("<a href=\"/x\">x</a>")),
        "then".to_string(),
    );
    feed.add_item_at(article(6, 1, Some("ignored"), Some("img/b.png"), None), "later".to_string());
    feed.add_item(article(7, 0, None, Some("https://cdn/c.png"), None));
    assert_eq!(feed.items.len(), 3);
    let first = &feed.items[0];
    assert_eq!(first.title, "Title");
    assert_eq!(first.link, "https://dkvz.eu/articles/some_url");
    assert_eq!(first.date, "then");
    assert_eq!(first.media, Some("https://dkvz.eu/img/a.png".to_string()));
    assert_eq!(first.description, "<a href=\"https://dkvz.eu/x\">x</a>");
    let second = &feed.items[1];
    assert_eq!(second.link, "https://dkvz.eu/breves/6");
    assert_eq!(second.media, Some("https://dkvz.eu/img/b.png".to_string()));
    assert_eq!(second.description, "Summary");
    let third = &feed.items[2];
    assert_eq!(third.link, "https://dkvz.eu/articles/7");
    assert_eq!(third.media, Some("https://cdn/c.png".to_string()));
    assert!(!third.date.is_empty());
}

#[test]
fn long_description_is_cut_with_a_link() {
    let info = site();
    let mut feed = RssFeed::new_at(&info, 4, "now".to_string());
    feed.add_item_at(article(5, 0, Some("u"), None, Some("abcdefgh")), "d".to_string());
    assert_eq!(
        feed.items[0].description,
        "abcd...<p><b><a href=\"https://dkvz.eu/articles/u\">Suite disponible sur le site</a></b></p>"
    );
    assert_eq!(feed.items[0].media, None);
    // The limit compares bytes and cuts characters.
    assert_eq!(shorten_description("ééé".to_string(), 5, "l"), "ééé...<p><b><a href=\"l\">Suite disponible sur le site</a></b></p>");
    assert_eq!(shorten_description("ééé".to_string(), 6, "l"), "ééé");
    assert_eq!(shorten_description("abcde".to_string(), 5, "l"), "abcde");
    assert_eq!(shorten_description("abcde".to_string(), 0, "l"), "...<p><b><a href=\"l\">Suite disponible sur le site</a></b></p>");
}

#[test]
fn media_url_roots_relative_addresses() {
    assert_eq!(media_url("r", "/a".to_string()), "r/a");
    assert_eq!(media_url("r", "a".to_string()), "r/a");
    assert_eq!(media_url("r", "".to_string()), "r/");
    assert_eq!(media_url("r", "http://a".to_string()), "http://a");
    assert_eq!(media_url("r", "/x://a".to_string()), "r/x://a");
}
