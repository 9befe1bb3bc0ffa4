use blog_backend::utils::option_bool_to_i32;
use blog_backend::utils::serde_utils::empty_string_to_none;
use blog_backend::utils::text_utils::{
    char_width, escape_html, first_letter_to_upper, from_chars, replace_first_letter,
    single_link_to_absolute, to_chars, truncate_utf8,
};

#[test]
fn first_letter_to_upper_on_two_words() {
    let sut = String::from("hello world");
    let expected = String::from("Hello world");
    assert_eq!(first_letter_to_upper(sut), expected);
}

#[test]
fn first_letter_to_upper_edge_cases() {
    assert_eq!(first_letter_to_upper(String::new()), "");
    assert_eq!(first_letter_to_upper(String::from("Hello")), "Hello");
    assert_eq!(first_letter_to_upper(String::from("élan")), "Élan");
    // One character may become several.
    assert_eq!(first_letter_to_upper(String::from("ßa")), "SSa");
    assert_eq!(first_letter_to_upper(String::from("1a")), "1a");
}

#[test]
fn replace_first_letter_swaps_the_head() {
    assert_eq!(replace_first_letter("hello", String::from("J")), "Jello");
    assert_eq!(replace_first_letter("h", String::from("abc")), "abc");
    assert_eq!(replace_first_letter("", String::from("abc")), "");
    assert_eq!(replace_first_letter("éa", String::new()), "a");
}

#[test]
fn escape_html_fits_my_xml_needs() {
    let sut = "<p>Test&nbsp;String &lt;br&gt;</p>";
    assert_eq!(
        "&lt;p&gt;Test&nbsp;String &lt;br&gt;&lt;/p&gt;",
        escape_html(sut)
    );
}

#[test]
fn escape_html_keeps_other_text() {
    assert_eq!(escape_html(""), "");
    assert_eq!(escape_html("a & b"), "a & b");
    assert_eq!(escape_html("<<>>"), "&lt;&lt;&gt;&gt;");
}

#[test]
fn truncate_utf8_simple() {
    let mut sut = String::from("just a string éé that's a little too long");
    truncate_utf8(&mut sut, 17);
    assert_eq!("just a string é", sut);
}

#[test]
fn truncate_utf8_edge_cases() {
    let mut short = String::from("abc");
    truncate_utf8(&mut short, 4);
    assert_eq!(short, "abc");
    // A string of exactly `maxsize` bytes loses its last character.
    let mut exact = String::from("abc");
    truncate_utf8(&mut exact, 3);
    assert_eq!(exact, "ab");
    let mut one = String::from("abc");
    truncate_utf8(&mut one, 1);
    assert_eq!(one, "");
    let mut wide = String::from("é");
    truncate_utf8(&mut wide, 2);
    assert_eq!(wide, "");
    let mut wide = String::from("é");
    truncate_utf8(&mut wide, 3);
    assert_eq!(wide, "é");
    let mut empty = String::new();
    truncate_utf8(&mut empty, 1);
    assert_eq!(empty, "");
}

#[test]
fn char_width_is_the_encoded_length() {
    for c in ['a', '\u{7f}', '\u{80}', 'é', '\u{7ff}', '\u{800}', '€', '\u{ffff}', '\u{10000}', '😀'] {
        assert_eq!(char_width(c), c.len_utf8());
    }
}

#[test]
fn single_link_to_absolute_returns_none() {
    let sut = "https://wikipedia.org/something/something";
    assert_eq!(None, single_link_to_absolute(sut, "blahblahbluh"));
}

#[test]
fn single_link_to_absolute_prefixes_relative_links() {
    assert_eq!(
        single_link_to_absolute("/img/a.png", "https://dkvz.eu"),
        Some(String::from("https://dkvz.eu/img/a.png"))
    );
    assert_eq!(single_link_to_absolute("", "base"), Some(String::from("base")));
    assert_eq!(single_link_to_absolute(":/", "b"), Some(String::from("b:/")));
    assert_eq!(single_link_to_absolute("://", "b"), None);
    assert_eq!(single_link_to_absolute("a://", "b"), None);
    assert_eq!(single_link_to_absolute("a:/b/c", "b"), Some(String::from("ba:/b/c")));
}

#[test]
fn chars_round_trip() {
    let chars = to_chars("hé€😀");
    assert_eq!(chars, vec!['h', 'é', '€', '😀']);
    assert_eq!(from_chars(&chars, 0, 4), "hé€😀");
    assert_eq!(from_chars(&chars, 1, 3), "é€");
    assert_eq!(from_chars(&chars, 2, 2), "");
}

#[test]
fn option_bool_to_i32_is_one_for_true_only() {
    assert_eq!(option_bool_to_i32(Some(true)), 1);
    assert_eq!(option_bool_to_i32(Some(false)), 0);
    assert_eq!(option_bool_to_i32(None), 0);
}

#[test]
fn empty_string_to_none_keeps_text() {
    assert_eq!(empty_string_to_none(Some(String::new())), None);
    assert_eq!(empty_string_to_none(None), None);
    assert_eq!(empty_string_to_none(Some(String::from(" "))), Some(String::from(" ")));
}
