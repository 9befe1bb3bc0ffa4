use blog_backend::data_transform::transform_pre_code;
use blog_backend::utils::number_utils::u64_to_string;
use blog_backend::utils::text_utils::{
    absolute_link, keep_term, relative_links_to_absolute, sanitize_search_terms,
};
use blog_backend::web::helpers::{
    pagination_replacement_of, replace_start_in_pagination_path, strip_port,
};

#[test]
fn can_replace_pagination_start_happy() {
    let sut = "/articles-starting-from/0";
    let expected = "/articles-starting-from/100";
    assert_eq!(expected, replace_start_in_pagination_path(sut, 100))
}

#[test]
fn can_replace_pagination_multiple_slashes() {
    let sut = "/v2/articles-starting-from/10";
    let expected = "/v2/articles-starting-from/100";
    assert_eq!(expected, replace_start_in_pagination_path(sut, 100));
}

#[test]
fn pagination_edge_cases() {
    assert_eq!(replace_start_in_pagination_path("/articles-starting-from/", 40), "/articles-starting-from/40");
    assert_eq!(replace_start_in_pagination_path("/articles", 40), "/articles");
    assert_eq!(replace_start_in_pagination_path("", 40), "");
    assert_eq!(pagination_replacement_of(0), "$1/0");
    assert_eq!(pagination_replacement_of(usize::MAX), format!("$1/{}", usize::MAX));
    assert_eq!(u64_to_string(u64::MAX), u64::MAX.to_string());
}

#[test]
fn strip_port_drops_a_trailing_port() {
    assert_eq!(strip_port("127.0.0.1:8080"), "127.0.0.1");
    assert_eq!(strip_port("127.0.0.1"), "127.0.0.1");
    assert_eq!(strip_port("[::1]:443"), "[::1]");
    assert_eq!(strip_port(""), "");
}

#[test]
fn transform_pre_code_happy_path() {
    let code = String::from("<p>test text</p>
      <pre class=\"screen\">const a = 1;
        const b = 3;
        return a + b;
      </pre>
      <p>More text</p>
      <pre class=\"screen\">
      </pre>
    ");
    // Transform will remove line feeds before ending
    // tags, this is expected, code is still correct:
    let expect = String::from("<p>test text</p>
      <pre class=\"screen\"><code>const a = 1;
        const b = 3;
        return a + b;</code></pre>
      <p>More text</p>
      <pre class=\"screen\"><code></code></pre>
    ");
    let result = transform_pre_code(code);
    assert_eq!(Some(expect), result)
}

#[test]
fn transform_pre_code_no_action_when_code_already_there() {
    let code = String::from("Some text<hr>More text
      <pre><code class=\"javascript\">void(false)</code></pre>
      even more text, modify this one
      <pre>
      // epic code right there
      // More of it
      </pre>
      <b>OK I'm done</b>");
    let expect = String::from("Some text<hr>More text
      <pre><code class=\"javascript\">void(false)</code></pre>
      even more text, modify this one
      <pre><code>
      // epic code right there
      // More of it</code></pre>
      <b>OK I'm done</b>");
    let result = transform_pre_code(code);
    assert_eq!(Some(expect), result)
}

#[test]
fn transform_pre_code_space_characters_in_between_no_replace() {
    let code = String::from("<pre>
    
        <code>
        // Code here
        </code>


        </pre>
        <p>Text that follows</p>
      ");
    let expect = String::from("<pre>
    
        <code>
        // Code here
        </code></pre>
        <p>Text that follows</p>
      ");
    let result = transform_pre_code(code);
    assert_eq!(Some(expect), result)
}

#[test]
fn sanitize_search_replaces_illegal_chars() {
    let sut: Vec<String> = vec![
        String::from(" p otato-[po ^w%+-er"),
        String::from("\npotato$   --[power]"),
    ];
    let processed = sanitize_search_terms(&sut, 10);
    assert_eq!(processed[0], "potatopower");
    assert_eq!(processed[1], "potatopower");
}

#[test]
fn sanitize_search_enforces_max_terms() {
    let sut: Vec<String> = vec![
        String::from("test1"),
        String::from("test2"),
        String::from("test3"),
        String::from("test4"),
        String::from("test5"),
    ];
    let processed = sanitize_search_terms(&sut, 3);
    assert_eq!(processed.len(), 3);
    assert_eq!(processed[2], "test3");
}

#[test]
fn sanitize_search_removes_empty_strings() {
    let sut: Vec<String> = vec![
        String::from("  $- "),
        String::from(""),
        String::from("  "),
        String::from("\n"),
    ];
    let processed = sanitize_search_terms(&sut, 80);
    assert_eq!(processed.len(), 0);
}

#[test]
fn sanitize_search_counts_dropped_terms_in_the_max() {
    let sut: Vec<String> = vec![String::from(" "), String::from("a"), String::from("b")];
    assert_eq!(sanitize_search_terms(&sut, 2), vec![String::from("a")]);
    assert!(sanitize_search_terms(&sut, 0).is_empty());
    let mut kept = vec![String::from("x")];
    keep_term(&mut kept, String::new());
    keep_term(&mut kept, String::from("y"));
    assert_eq!(kept, vec![String::from("x"), String::from("y")]);
}

#[test]
fn relative_links_to_absolute_converted() {
    // I'm adding an uppercase SRC in there too.
    let sut = "Example\nText \
      <a href=\"/article/some_url\" target=\"_blank\">\
      some link</a>\n\
      <img SRC=\"/stuff/test.png\" />";
    let expected = "Example\nText \
      <a href=\"https://dkvz.eu/article/some_url\" target=\"_blank\">\
      some link</a>\n\
      <img SRC=\"https://dkvz.eu/stuff/test.png\" />";

    assert_eq!(expected, relative_links_to_absolute(sut, "https://dkvz.eu"));
}

#[test]
fn relative_links_to_absolute_does_not_convert_absolute() {
    let sut = "<a href=\"https://en.wikipedia.org/wiki/Trousers\">\
      awesome article</a>Some more text";

    assert_eq!(sut, relative_links_to_absolute(sut, "https://dkvz.eu"));
}

#[test]
fn relative_links_keep_a_dollar_in_the_base() {
    assert_eq!(
        relative_links_to_absolute("<img src=\"/a.png\">", "https://x/$1"),
        "<img src=\"https://x/$1/a.png\">"
    );
    assert_eq!(absolute_link("href=\"", "https://x", "a"), "href=\"https://x/a\"");
}
