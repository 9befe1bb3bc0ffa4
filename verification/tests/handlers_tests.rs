use blog_backend::db::queries::Order;
use blog_backend::utils::number_utils::parse_i32;
use blog_backend::utils::text_utils::{
    is_word_in_any_case, split_trimmed, trim, unmarked_range, white_space_marks,
};
use blog_backend::web::error::Error;
use blog_backend::web::rate_limiter::{check_rate_limit_at, BasicRateLimiter};
use blog_backend::web::handlers::{
    article_or_not_found, comment_article_id, comments_page_size, count_to_usize,
    last_page_link, last_page_start, new_comment, page_exists, parse_order, parse_tags,
    prepare_comment, refresh_status, request_origin,
};

#[test]
fn tags_are_split_and_trimmed() {
    assert_eq!(
        parse_tags(Some("rust, web ,,  , verus")),
        Some(vec!["rust".to_string(), "web".to_string(), "verus".to_string()])
    );
    assert_eq!(parse_tags(Some("one")), Some(vec!["one".to_string()]));
    assert_eq!(parse_tags(Some(" , ,")), None);
    assert_eq!(parse_tags(Some("")), None);
    assert_eq!(parse_tags(None), None);
    assert_eq!(split_trimmed("a b;c ", ';'), vec!["a b".to_string(), "c".to_string()]);
    assert_eq!(split_trimmed(",x", ','), vec!["x".to_string()]);
}

#[test]
fn trim_drops_white_space_at_both_ends() {
    assert_eq!(trim("  a b \n"), "a b");
    assert_eq!(trim("\u{a0}x\u{2003}"), "x");
    assert_eq!(trim(" \t "), "");
    assert_eq!(trim(""), "");
    assert_eq!(trim("x"), "x");
}

#[test]
fn order_is_ascending_only_for_asc() {
    assert_eq!(parse_order(Some("asc")), Order::Asc);
    assert_eq!(parse_order(Some("ASC")), Order::Asc);
    assert_eq!(parse_order(Some("desc")), Order::Desc);
    assert_eq!(parse_order(Some(" asc")), Order::Desc);
    assert_eq!(parse_order(Some("")), Order::Desc);
    assert_eq!(parse_order(None), Order::Desc);
    assert!(is_word_in_any_case("JSON", "json"));
    assert!(!is_word_in_any_case("jsonl", "json"));
}

#[test]
fn parse_i32_reads_what_std_reads() {
    for text in [
        "0", "7", "-7", "+7", "007", "-0", "2147483647", "2147483648", "-2147483648",
        "-2147483649", "99999999999999999999", "", "-", "+", "--1", "1a", " 1", "1 ", "a", "１",
        "+-1", "000000000000000000001",
    ] {
        assert_eq!(parse_i32(text), text.parse::<i32>().ok(), "{:?}", text);
    }
}

#[test]
fn counts_and_pages() {
    assert!(matches!(count_to_usize(5), Ok(5)));
    assert!(matches!(count_to_usize(0), Ok(0)));
    assert!(matches!(
        count_to_usize(-1),
        Err(Error::InternalServerError(text))
            if text == "Article count cannot be converted to usize - Should never happen"
    ));
    assert!(page_exists(0, 1, "No articles found").is_ok());
    assert!(matches!(
        page_exists(1, 1, "No articles found"),
        Err(Error::NotFound(text)) if text == "No articles found"
    ));
    assert!(matches!(page_exists(0, 0, "No comments found"), Err(Error::NotFound(_))));
    assert_eq!(last_page_start(45, 20), 40);
    assert_eq!(last_page_start(40, 20), 40);
    assert_eq!(last_page_start(19, 20), 0);
    assert_eq!(last_page_start(usize::MAX, 1), usize::MAX);
}

#[test]
fn link_header_names_the_last_page() {
    assert_eq!(
        last_page_link("https://dkvz.eu", "/articles-starting-from/0", 20, 45),
        "<https://dkvz.eu/articles-starting-from/40?max=20>; rel=\"last\""
    );
    assert_eq!(
        last_page_link("https://dkvz.eu", "/articles-starting-from/0", 50, 45),
        "<https://dkvz.eu/articles-starting-from/0?max=50>; rel=\"last\""
    );
    assert_eq!(request_origin(Some("https://api"), Some("host")), "https://api");
    assert_eq!(request_origin(None, Some("host")), "https://host");
    assert_eq!(request_origin(None, None), "https://localhost");
}

#[test]
fn comment_page_size_is_capped() {
    assert_eq!(comments_page_size(None), 20);
    assert_eq!(comments_page_size(Some(0)), 0);
    assert_eq!(comments_page_size(Some(50)), 50);
    assert_eq!(comments_page_size(Some(51)), 50);
}

#[test]
fn comment_needs_a_positive_article_id() {
    assert!(matches!(comment_article_id(Some(3), Some(9)), Ok(3)));
    assert!(matches!(comment_article_id(None, Some(9)), Ok(9)));
    for (given, found) in [(Some(0), Some(9)), (Some(-2), None), (None, None), (None, Some(0))] {
        assert!(matches!(
            comment_article_id(given, found),
            Err(Error::BadRequest(text)) if text == "Invalid article URL, ID, or no ID provided"
        ));
    }
}

#[test]
fn comment_is_cut_trimmed_and_escaped() {
    let (author, comment) = prepare_comment("  <Bob> ".to_string(), "a < b".to_string()).unwrap();
    assert_eq!(author, "&lt;Bob&gt;");
    assert_eq!(comment, "a &lt; b");
    let long_author = "é".repeat(40);
    let long_comment = "x".repeat(3000);
    let (author, comment) = prepare_comment(long_author, long_comment).unwrap();
    assert_eq!(author, "é".repeat(34));
    assert_eq!(comment.len(), 1999);
    for (author, comment) in [("  ", "text"), ("", "text"), ("Bob", "")] {
        assert!(matches!(
            prepare_comment(author.to_string(), comment.to_string()),
            Err(Error::BadRequest(text)) if text == "Author or message body cannot be empty"
        ));
    }
    // The text of a comment is not trimmed.
    assert_eq!(prepare_comment("Bob".to_string(), " ".to_string()).unwrap().1, " ");
    let row = new_comment(3, "a".to_string(), "c".to_string(), 9, Some("ip".to_string()));
    assert_eq!((row.id, row.article_id, row.date), (-1, 3, 9));
    assert_eq!((row.author.as_str(), row.comment.as_str()), ("a", "c"));
    assert_eq!(row.client_ip, Some("ip".to_string()));
}

#[test]
fn refresh_and_lookup_answers() {
    let status = refresh_status(1, 12).unwrap();
    assert_eq!(status.status, "success");
    assert_eq!(status.message, "Date refreshed and article published");
    assert_eq!(status.id, Some(12));
    assert!(matches!(
        refresh_status(0, 12),
        Err(Error::NotFound(text)) if text == "No updates were made"
    ));
    assert!(matches!(
        article_or_not_found(None),
        Err(Error::NotFound(text)) if text == "Article does not exist"
    ));
}

#[test]
fn rate_limit_check_counts_only_outside_a_block() {
    let mut limiter = BasicRateLimiter::new_at(2, 60, 30, 0);
    assert_eq!(check_rate_limit_at(&mut limiter, 1), false);
    assert_eq!(check_rate_limit_at(&mut limiter, 2), true);
    assert_eq!(limiter.counter(), 2);
    // While the block runs, a request is refused and not counted.
    assert_eq!(check_rate_limit_at(&mut limiter, 3), true);
    assert_eq!(limiter.counter(), 2);
    // Once it has run out, the limiter starts anew.
    assert_eq!(check_rate_limit_at(&mut limiter, 32), false);
    assert_eq!(limiter.counter(), 0);
}

#[test]
fn unmarked_range_drops_marked_ends() {
    let marks = vec![true, true, false, true, false, true];
    assert_eq!(unmarked_range(&marks, 0, 6), (2, 5));
    assert_eq!(unmarked_range(&marks, 2, 5), (2, 5));
    assert_eq!(unmarked_range(&marks, 3, 6), (4, 5));
    assert_eq!(unmarked_range(&marks, 2, 3), (2, 3));
    // A stretch that is marked throughout leaves nothing, at its end.
    assert_eq!(unmarked_range(&marks, 0, 2), (2, 2));
    assert_eq!(unmarked_range(&marks, 5, 6), (6, 6));
    assert_eq!(unmarked_range(&marks, 4, 4), (4, 4));
    assert_eq!(unmarked_range(&Vec::new(), 0, 0), (0, 0));
    assert_eq!(
        white_space_marks(&vec![' ', 'a', '\t', '\u{a0}', 'é', '\n']),
        vec![true, false, true, true, false, true]
    );
}
