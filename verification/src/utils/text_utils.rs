//! Helpers on text, stated over the characters of a string.

use crate::utils::regex_utils::{
    links_replaced, regex_replaced, regex_replacen, replace_links, REL_LINK_PATTERN,
    SEARCH_CLEANUP_PATTERN,
};
use vstd::prelude::*;
use vstd::string::StringExecFns;
use vstd::utf8::{encode_scalar, encode_utf8};

verus! {

/// Specifies `String::push`: the character is appended.
pub assume_specification[ String::push ](s: &mut String, ch: char)
    ensures
        final(s)@ == old(s)@.push(ch),
;

/// The characters of `s`, in order.
pub fn to_chars(s: &str) -> (chars: Vec<char>)
    ensures
        chars@ == s@,
{
    let mut chars: Vec<char> = Vec::new();
    for c in it: s.chars()
        invariant
            chars@ == it.seq().take(it.index() as int),
            it.seq() == s@,
    {
        chars.push(c);
    }
    chars
}

/// The string made of the characters `chars[from..to]`.
pub fn from_chars(chars: &Vec<char>, from: usize, to: usize) -> (s: String)
    requires
        from <= to <= chars@.len(),
    ensures
        s@ == chars@.subrange(from as int, to as int),
{
    let mut s = String::new();
    let mut i: usize = from;
    while i < to
        invariant
            from <= i <= to <= chars@.len(),
            s@ == chars@.subrange(from as int, i as int),
        decreases to - i,
    {
        s.push(chars[i]);
        i += 1;
        assert(chars@.subrange(from as int, i as int) =~= chars@.subrange(
            from as int,
            i - 1 as int,
        ).push(chars@[i - 1]));
    }
    s
}

/// The upper case of `c`, one character or several, as Unicode maps it.
pub uninterp spec fn uppercase(c: char) -> Seq<char>;

/// Calls `char::to_uppercase` and collects the characters it yields: the
/// upper case of `c`, a function of `c` alone.
#[verifier::external_body]
fn char_to_uppercase(c: char) -> (upper: String)
    ensures
        upper@ == uppercase(c),
{
    c.to_uppercase().collect()
}

/// `s` with `head` in place of its first character; nothing where `s` is empty.
pub open spec fn with_head(s: Seq<char>, head: Seq<char>) -> Seq<char> {
    if s.len() == 0 {
        s
    } else {
        head + s.skip(1)
    }
}

/// Puts `head` in place of the first character of `s`. An empty `s` stays
/// empty.
pub fn replace_first_letter(s: &str, head: String) -> (replaced: String)
    ensures
        replaced@ == with_head(s@, head@),
{
    let chars = to_chars(s);
    if chars.len() == 0 {
        return String::new();
    }
    let rest = from_chars(&chars, 1, chars.len());
    assert(chars@.subrange(1, chars@.len() as int) =~= s@.skip(1));
    head.concat(rest.as_str())
}

/// `s` with its first character in upper case.
pub open spec fn capitalized(s: Seq<char>) -> Seq<char> {
    if s.len() == 0 {
        s
    } else {
        with_head(s, uppercase(s[0]))
    }
}

/// Turns the first character of `s1` into upper case and keeps the rest.
pub fn first_letter_to_upper(s1: String) -> (upper: String)
    ensures
        upper@ == capitalized(s1@),
{
    let chars = to_chars(s1.as_str());
    if chars.len() == 0 {
        return String::new();
    }
    replace_first_letter(s1.as_str(), char_to_uppercase(chars[0]))
}

/// What stands for one character in escaped text: `&lt;` for `<`, `&gt;` for
/// `>`, the character itself otherwise.
pub open spec fn escape_char(c: char) -> Seq<char> {
    if c == '<' {
        seq!['&', 'l', 't', ';']
    } else if c == '>' {
        seq!['&', 'g', 't', ';']
    } else {
        seq![c]
    }
}

/// `s` with each `<` and each `>` escaped, and every other character kept.
pub open spec fn escaped(s: Seq<char>) -> Seq<char>
    decreases s.len(),
{
    if s.len() == 0 {
        s
    } else {
        escaped(s.drop_last()) + escape_char(s.last())
    }
}

/// Escaping leaves something of every text that is not empty.
pub proof fn lemma_escaped_keeps_text(s: Seq<char>)
    ensures
        escaped(s).len() >= s.len(),
    decreases s.len(),
{
    if s.len() > 0 {
        lemma_escaped_keeps_text(s.drop_last());
    }
}

/// Escapes the angle brackets of `s`. An ampersand is left as it is.
pub fn escape_html(s: &str) -> (safe: String)
    ensures
        safe@ == escaped(s@),
{
    let chars = to_chars(s);
    let mut safe = String::new();
    let mut i: usize = 0;
    while i < chars.len()
        invariant
            i <= chars@.len(),
            safe@ == escaped(chars@.take(i as int)),
        decreases chars@.len() - i,
    {
        assert(chars@.take(i + 1).drop_last() =~= chars@.take(i as int));
        let c = chars[i];
        if c == '<' {
            safe.push('&');
            safe.push('l');
            safe.push('t');
            safe.push(';');
        } else if c == '>' {
            safe.push('&');
            safe.push('g');
            safe.push('t');
            safe.push(';');
        } else {
            safe.push(c);
        }
        assert(safe@ =~= escaped(chars@.take(i as int)) + escape_char(c));
        i += 1;
    }
    assert(chars@.take(chars@.len() as int) =~= chars@);
    safe
}

/// Whether `://` stands at index `i` of `s`.
pub open spec fn scheme_mark_at(s: Seq<char>, i: int) -> bool {
    0 <= i && i + 3 <= s.len() && s[i] == ':' && s[i + 1] == '/' && s[i + 2] == '/'
}

/// Whether `s` holds `://` anywhere, as an absolute link does.
pub open spec fn has_scheme_mark(s: Seq<char>) -> bool {
    exists|i: int| scheme_mark_at(s, i)
}

fn contains_scheme_mark(chars: &Vec<char>) -> (found: bool)
    ensures
        found == has_scheme_mark(chars@),
{
    let len: usize = chars.len();
    if len < 3 {
        return false;
    }
    let mut i: usize = 0;
    while i <= len - 3
        invariant
            3 <= len == chars@.len(),
            i <= len - 2,
            forall|k: int| 0 <= k < i ==> !scheme_mark_at(chars@, k),
        decreases len - i,
    {
        if chars[i] == ':' && chars[i + 1] == '/' && chars[i + 2] == '/' {
            assert(scheme_mark_at(chars@, i as int));
            return true;
        }
        i += 1;
    }
    false
}

/// Puts `base_url` before a relative link. A `source` that holds `://` is
/// absolute already and gives `None`.
pub fn single_link_to_absolute(source: &str, base_url: &str) -> (link: Option<String>)
    ensures
        match link {
            Some(absolute) => !has_scheme_mark(source@) && absolute@ == base_url@ + source@,
            None => has_scheme_mark(source@),
        },
{
    let chars = to_chars(source);
    if !contains_scheme_mark(&chars) {
        Some(base_url.to_owned().concat(source))
    } else {
        None
    }
}

/// Number of bytes that the UTF-8 encoding of `s` takes.
pub open spec fn utf8_len(s: Seq<char>) -> nat {
    encode_utf8(s).len()
}

/// Appending a character appends its encoding.
pub proof fn lemma_encode_push(s: Seq<char>, c: char)
    ensures
        encode_utf8(s.push(c)) == encode_utf8(s) + encode_scalar(c as u32),
    decreases s.len(),
{
    if s.len() == 0 {
        assert(s.push(c).drop_first() =~= s);
        assert(encode_utf8(s.push(c)) =~= encode_utf8(s) + encode_scalar(c as u32));
    } else {
        lemma_encode_push(s.drop_first(), c);
        assert(s.push(c).drop_first() =~= s.drop_first().push(c));
        assert(encode_utf8(s.push(c)) =~= encode_utf8(s) + encode_scalar(c as u32));
    }
}

/// Number of bytes that `c` takes in UTF-8, one to four.
pub fn char_width(c: char) -> (width: usize)
    ensures
        width == encode_scalar(c as u32).len(),
        1 <= width <= 4,
{
    let v: u32 = c as u32;
    if v <= 0x7F {
        1
    } else if v <= 0x7FF {
        2
    } else if v <= 0xFFFF {
        3
    } else {
        4
    }
}

/// Whether `kept` is what remains of `s` when it is cut to less than
/// `maxsize` bytes without splitting a character: the longest run of whole
/// characters from the start of `s` whose encoding is shorter than `maxsize`
/// bytes.
pub open spec fn is_truncation(s: Seq<char>, maxsize: nat, kept: Seq<char>) -> bool {
    &&& kept.len() <= s.len()
    &&& kept == s.take(kept.len() as int)
    &&& utf8_len(kept) < maxsize
    &&& kept.len() < s.len() ==> utf8_len(s.take(kept.len() as int + 1)) >= maxsize
}

/// Cuts `input` to less than `maxsize` bytes, at a character boundary. A
/// string that is shorter already stays as it is.
pub fn truncate_utf8(input: &mut String, maxsize: usize)
    requires
        maxsize > 0,
    ensures
        is_truncation(old(input)@, maxsize as nat, final(input)@),
{
    let chars = to_chars(input.as_str());
    let len: usize = chars.len();
    let mut kept: usize = 0;
    let mut used: usize = 0;
    while kept < len && char_width(chars[kept]) < maxsize - used
        invariant
            kept <= len == chars@.len(),
            used < maxsize,
            used == utf8_len(chars@.take(kept as int)),
        decreases len - kept,
    {
        proof {
            lemma_encode_push(chars@.take(kept as int), chars@[kept as int]);
            assert(chars@.take(kept + 1) =~= chars@.take(kept as int).push(chars@[kept as int]));
        }
        used += char_width(chars[kept]);
        kept += 1;
    }
    proof {
        if kept < len {
            lemma_encode_push(chars@.take(kept as int), chars@[kept as int]);
            assert(chars@.take(kept + 1) =~= chars@.take(kept as int).push(chars@[kept as int]));
        }
        assert(chars@.take(len as int) =~= chars@);
    }
    if kept < len {
        *input = from_chars(&chars, 0, kept);
    }
}

/// The characters of each string of `parts`.
pub open spec fn texts(parts: Seq<String>) -> Seq<Seq<char>> {
    parts.map_values(|part: String| part@)
}

/// The texts of `parts` in one, with `separator` between each two.
pub open spec fn joined(parts: Seq<Seq<char>>, separator: Seq<char>) -> Seq<char>
    decreases parts.len(),
{
    if parts.len() == 0 {
        Seq::empty()
    } else if parts.len() == 1 {
        parts[0]
    } else {
        joined(parts.drop_last(), separator) + separator + parts.last()
    }
}

/// Joins the strings of `parts`, with `separator` between each two.
pub fn join(parts: &Vec<String>, separator: &str) -> (text: String)
    ensures
        text@ == joined(texts(parts@), separator@),
{
    let mut text = String::new();
    let mut i: usize = 0;
    while i < parts.len()
        invariant
            i <= parts@.len(),
            text@ == joined(texts(parts@).take(i as int), separator@),
        decreases parts@.len() - i,
    {
        assert(texts(parts@).take(i + 1).drop_last() =~= texts(parts@).take(i as int));
        if i > 0 {
            text.append(separator);
        }
        text.append(parts[i].as_str());
        i += 1;
    }
    assert(texts(parts@).take(parts@.len() as int) =~= texts(parts@));
    text
}

/// Whether two strings hold the same text.
pub fn same_text(a: &str, b: &str) -> (same: bool)
    ensures
        same == (a@ == b@),
{
    let left = to_chars(a);
    let right = to_chars(b);
    if left.len() != right.len() {
        return false;
    }
    let mut i: usize = 0;
    while i < left.len()
        invariant
            i <= left@.len() == right@.len(),
            left@ == a@,
            right@ == b@,
            forall|k: int| 0 <= k < i ==> left@[k] == right@[k],
        decreases left@.len() - i,
    {
        if left[i] != right[i] {
            assert(a@[i as int] != b@[i as int]);
            return false;
        }
        i += 1;
    }
    assert(a@ =~= b@);
    true
}

/// The attribute `attribute` with the path `path` made absolute under
/// `base_url`, and the quote that closes it.
pub open spec fn absolute_link_text(attribute: Seq<char>, base_url: Seq<char>, path: Seq<char>) -> Seq<
    char,
> {
    attribute + base_url + "/"@ + path + "\""@
}

/// Writes an attribute whose value is the path `path` under `base_url`:
/// the attribute as it opened, the base, a slash, the path and the closing
/// quote.
pub fn absolute_link(attribute: &str, base_url: &str, path: &str) -> (link: String)
    ensures
        link@ == absolute_link_text(attribute@, base_url@, path@),
{
    let mut link = attribute.to_owned();
    link.append(base_url);
    link.append("/");
    link.append(path);
    link.append("\"");
    link
}

/// Makes the relative links of `source` absolute: each `src` or `href`
/// attribute whose value begins with a slash gets `base_url` before it.
pub fn relative_links_to_absolute(source: &str, base_url: &str) -> (absolute: String)
    ensures
        absolute@ == links_replaced(REL_LINK_PATTERN@, source@, base_url@),
{
    replace_links(REL_LINK_PATTERN, source, base_url)
}

/// A search term without the characters that a search does not take.
pub open spec fn cleaned_term(term: Seq<char>) -> Seq<char> {
    regex_replaced(SEARCH_CLEANUP_PATTERN@, term, 0, ""@)
}

/// The terms of a search as they are handed on: the first `max_search_terms`
/// of them, each cleaned, without those of which nothing is left.
pub open spec fn sanitized(terms: Seq<Seq<char>>, max_search_terms: nat) -> Seq<Seq<char>>
    decreases terms.len(),
{
    if terms.len() == 0 {
        Seq::empty()
    } else if terms.len() > max_search_terms {
        sanitized(terms.drop_last(), max_search_terms)
    } else if cleaned_term(terms.last()).len() > 0 {
        sanitized(terms.drop_last(), max_search_terms).push(cleaned_term(terms.last()))
    } else {
        sanitized(terms.drop_last(), max_search_terms)
    }
}

/// Adds `cleaned` to the terms kept, unless nothing is left of it.
pub fn keep_term(kept: &mut Vec<String>, cleaned: String)
    ensures
        final(kept)@ == if cleaned@.len() > 0 {
            old(kept)@.push(cleaned)
        } else {
            old(kept)@
        },
{
    if !cleaned.as_str().is_empty() {
        kept.push(cleaned);
    }
}

/// Cleans the terms of a search: at most `max_search_terms` of them are
/// looked at, and those of which nothing is left are dropped.
pub fn sanitize_search_terms(terms: &Vec<String>, max_search_terms: usize) -> (kept: Vec<String>)
    ensures
        texts(kept@) == sanitized(texts(terms@), max_search_terms as nat),
{
    let mut kept: Vec<String> = Vec::new();
    let mut i: usize = 0;
    assert(texts(kept@) =~= sanitized(texts(terms@).take(0), max_search_terms as nat));
    while i < terms.len() && i < max_search_terms
        invariant
            i <= terms@.len(),
            i <= max_search_terms,
            texts(kept@) == sanitized(texts(terms@).take(i as int), max_search_terms as nat),
        decreases terms@.len() - i,
    {
        let cleaned = regex_replacen(SEARCH_CLEANUP_PATTERN, terms[i].as_str(), 0, "");
        let ghost before = kept@;
        keep_term(&mut kept, cleaned);
        proof {
            assert(texts(terms@).take(i + 1).drop_last() =~= texts(terms@).take(i as int));
            assert(texts(terms@).take(i + 1).last() == terms@[i as int]@);
            if cleaned@.len() > 0 {
                assert(texts(kept@) =~= texts(before).push(cleaned@));
            }
        }
        i += 1;
    }
    proof {
        lemma_sanitized_beyond(texts(terms@), i as int, max_search_terms as nat);
    }
    kept
}

/// The terms behind the first `max_search_terms` do not count.
proof fn lemma_sanitized_beyond(terms: Seq<Seq<char>>, looked_at: int, max_search_terms: nat)
    requires
        0 <= looked_at <= terms.len(),
        looked_at == terms.len() || looked_at == max_search_terms,
    ensures
        sanitized(terms, max_search_terms) == sanitized(terms.take(looked_at), max_search_terms),
    decreases terms.len(),
{
    if looked_at == terms.len() {
        assert(terms.take(looked_at) =~= terms);
    } else {
        lemma_sanitized_beyond(terms.drop_last(), looked_at, max_search_terms);
        assert(terms.drop_last().take(looked_at) =~= terms.take(looked_at));
    }
}

/// Whether Unicode counts `c` as white space.
pub uninterp spec fn is_white_space(c: char) -> bool;

/// Calls `char::is_whitespace`: whether `c` has the Unicode property
/// `White_Space`, a function of `c` alone.
#[verifier::external_body]
fn char_is_whitespace(c: char) -> (white: bool)
    ensures
        white == is_white_space(c),
{
    c.is_whitespace()
}

/// The lower case of `s`, as Unicode maps it.
pub uninterp spec fn lowercase(s: Seq<char>) -> Seq<char>;

/// Calls `str::to_lowercase`: the lower case of the text, a function of the
/// text alone.
#[verifier::external_body]
fn str_to_lowercase(s: &str) -> (lower: String)
    ensures
        lower@ == lowercase(s@),
{
    s.to_lowercase()
}

/// Whether `s` is `word` when case is left aside: whether its lower case is
/// `word`.
pub fn is_word_in_any_case(s: &str, word: &str) -> (same: bool)
    ensures
        same == (lowercase(s@) == word@),
{
    same_text(str_to_lowercase(s).as_str(), word)
}

/// Number of white space characters at the start of `s`.
pub open spec fn leading_white(s: Seq<char>) -> nat
    decreases s.len(),
{
    if s.len() > 0 && is_white_space(s[0]) {
        1 + leading_white(s.drop_first())
    } else {
        0
    }
}

/// Number of white space characters at the end of `s`.
pub open spec fn trailing_white(s: Seq<char>) -> nat
    decreases s.len(),
{
    if s.len() > 0 && is_white_space(s.last()) {
        1 + trailing_white(s.drop_last())
    } else {
        0
    }
}

/// `s` without the white space at its start and at its end.
pub open spec fn trimmed(s: Seq<char>) -> Seq<char> {
    if leading_white(s) == s.len() {
        Seq::empty()
    } else {
        s.subrange(leading_white(s) as int, s.len() - trailing_white(s))
    }
}

/// From `from` on, `s` begins with as many white space characters as
/// `leading_white` counts, and no more.
proof fn lemma_leading_white(s: Seq<char>, from: int)
    requires
        0 <= from <= s.len(),
    ensures
        from + leading_white(s.skip(from)) <= s.len(),
        forall|k: int| from <= k < from + leading_white(s.skip(from)) ==> is_white_space(s[k]),
        from + leading_white(s.skip(from)) < s.len() ==> !is_white_space(
            s[from + leading_white(s.skip(from))],
        ),
    decreases s.len() - from,
{
    if from < s.len() && is_white_space(s[from]) {
        lemma_leading_white(s, from + 1);
        assert(s.skip(from).drop_first() =~= s.skip(from + 1));
    }
}

/// Up to `to`, `s` ends with as many white space characters as
/// `trailing_white` counts, and no more.
proof fn lemma_trailing_white(s: Seq<char>, to: int)
    requires
        0 <= to <= s.len(),
    ensures
        trailing_white(s.take(to)) <= to,
        forall|k: int| to - trailing_white(s.take(to)) <= k < to ==> is_white_space(s[k]),
        to - trailing_white(s.take(to)) > 0 ==> !is_white_space(
            s[to - trailing_white(s.take(to)) - 1],
        ),
    decreases to,
{
    if to > 0 && is_white_space(s[to - 1]) {
        lemma_trailing_white(s, to - 1);
        assert(s.take(to).drop_last() =~= s.take(to - 1));
    }
}

/// Whether each mark says of its character whether it is white space.
pub open spec fn marks_white_space(chars: Seq<char>, marks: Seq<bool>) -> bool {
    &&& marks.len() == chars.len()
    &&& forall|k: int| 0 <= k < chars.len() ==> #[trigger] marks[k] == is_white_space(chars[k])
}

/// Marks the characters that are white space.
pub fn white_space_marks(chars: &Vec<char>) -> (marks: Vec<bool>)
    ensures
        marks_white_space(chars@, marks@),
{
    let mut marks: Vec<bool> = Vec::new();
    let mut i: usize = 0;
    while i < chars.len()
        invariant
            i <= chars@.len(),
            marks@.len() == i,
            forall|k: int| 0 <= k < i ==> #[trigger] marks@[k] == is_white_space(chars@[k]),
        decreases chars@.len() - i,
    {
        marks.push(char_is_whitespace(chars[i]));
        i += 1;
    }
    marks
}

/// Whether `range` is what is left of the places `from..to` once the marked
/// places at either end are taken away: all that stands before it and
/// behind it is marked, and it begins and ends with a place that is not. A
/// stretch that is marked throughout leaves the empty range at its end.
pub open spec fn is_unmarked_range(marks: Seq<bool>, from: int, to: int, range: (int, int)) -> bool {
    &&& from <= range.0 <= range.1 <= to
    &&& forall|k: int| from <= k < range.0 ==> marks[k]
    &&& forall|k: int| range.1 <= k < to ==> marks[k]
    &&& range.0 < range.1 ==> !marks[range.0] && !marks[range.1 - 1]
    &&& range.0 == range.1 ==> range.0 == to
}

/// The places `from..to` without the marked places at either end.
pub fn unmarked_range(marks: &Vec<bool>, from: usize, to: usize) -> (range: (usize, usize))
    requires
        from <= to <= marks@.len(),
    ensures
        is_unmarked_range(marks@, from as int, to as int, (range.0 as int, range.1 as int)),
{
    let mut start: usize = from;
    while start < to && marks[start]
        invariant
            from <= start <= to <= marks@.len(),
            forall|k: int| from <= k < start ==> marks@[k],
        decreases to - start,
    {
        start += 1;
    }
    if start == to {
        return (start, start);
    }
    let mut end: usize = to;
    while end > start + 1 && marks[end - 1]
        invariant
            from <= start < end <= to <= marks@.len(),
            !marks@[start as int],
            forall|k: int| from <= k < start ==> marks@[k],
            forall|k: int| end <= k < to ==> marks@[k],
        decreases end,
    {
        end -= 1;
    }
    (start, end)
}

/// The characters `chars[from..to]` without the white space at either end,
/// as indices into `chars`.
fn trim_range(chars: &Vec<char>, marks: &Vec<bool>, from: usize, to: usize) -> (range: (
    usize,
    usize,
))
    requires
        from <= to <= chars@.len(),
        marks_white_space(chars@, marks@),
    ensures
        from <= range.0 <= range.1 <= to,
        chars@.subrange(range.0 as int, range.1 as int) == trimmed(
            chars@.subrange(from as int, to as int),
        ),
{
    let range = unmarked_range(marks, from, to);
    proof {
        let part = chars@.subrange(from as int, to as int);
        let start = range.0 as int;
        let end = range.1 as int;
        lemma_leading_white(part, 0);
        lemma_trailing_white(part, part.len() as int);
        assert(part.skip(0) =~= part);
        assert(part.take(part.len() as int) =~= part);
        assert forall|k: int| from <= k < to implies marks@[k] == is_white_space(
            #[trigger] part[k - from],
        ) by {}
        if start - from < leading_white(part) {
            assert(is_white_space(part[start - from]));
        }
        if start - from > leading_white(part) {
            assert(marks@[from + leading_white(part)]);
            assert(is_white_space(part[leading_white(part) as int]));
        }
        assert(start - from == leading_white(part));
        if start == end {
            assert(chars@.subrange(start, start) =~= Seq::<char>::empty());
        } else {
            let counted = trailing_white(part);
            if to - end < counted {
                assert(is_white_space(part[end - from - 1]));
            }
            if to - end > counted {
                assert(marks@[to - counted - 1]);
                assert(is_white_space(part[part.len() - counted - 1]));
            }
            assert(to - end == counted);
            assert(chars@.subrange(start, end) =~= part.subrange(
                leading_white(part) as int,
                part.len() - counted,
            ));
        }
    }
    range
}

/// `s` without the white space at its start and at its end.
pub fn trim(s: &str) -> (text: String)
    ensures
        text@ == trimmed(s@),
{
    let chars = to_chars(s);
    let marks = white_space_marks(&chars);
    let range = trim_range(&chars, &marks, 0, chars.len());
    assert(chars@.subrange(0, chars@.len() as int) =~= s@);
    from_chars(&chars, range.0, range.1)
}

/// Number of times `c` occurs in `s`.
pub open spec fn count_of(s: Seq<char>, c: char) -> nat
    decreases s.len(),
{
    if s.len() == 0 {
        0
    } else {
        count_of(s.drop_last(), c) + if s.last() == c {
            1nat
        } else {
            0nat
        }
    }
}

/// Index of the last `c` in `s`, or -1 where `s` holds none.
pub open spec fn last_index_of(s: Seq<char>, c: char) -> int
    decreases s.len(),
{
    if s.len() == 0 {
        -1
    } else if s.last() == c {
        s.len() - 1
    } else {
        last_index_of(s.drop_last(), c)
    }
}

/// The last `c` of `s`, where there is one, stands within `s`.
pub proof fn lemma_last_index_of(s: Seq<char>, c: char)
    ensures
        -1 <= last_index_of(s, c) < s.len(),
        last_index_of(s, c) >= 0 ==> s[last_index_of(s, c)] == c,
        last_index_of(s, c) == -1 <==> count_of(s, c) == 0,
        forall|j: int| last_index_of(s, c) < j < s.len() ==> s[j] != c,
        last_index_of(s, c) >= 0 ==> count_of(s.take(last_index_of(s, c)), c) + 1 == count_of(
            s,
            c,
        ),
    decreases s.len(),
{
    if s.len() > 0 {
        lemma_last_index_of(s.drop_last(), c);
        if s.last() == c {
            assert(s.take(s.len() - 1) =~= s.drop_last());
        } else {
            let i = last_index_of(s.drop_last(), c);
            if i >= 0 {
                assert(s.take(i) =~= s.drop_last().take(i));
            }
            assert forall|j: int| i < j < s.len() implies s[j] != c by {
                if j < s.len() - 1 {
                    assert(s.drop_last()[j] == s[j]);
                }
            }
        }
    }
}

/// The parts of `s` between each two `c`, in order: one part more than `s`
/// holds `c`.
pub open spec fn split_on(s: Seq<char>, c: char) -> Seq<Seq<char>>
    decreases s.len(),
    via split_on_decreases
{
    let i = last_index_of(s, c);
    if i < 0 {
        seq![s]
    } else {
        split_on(s.take(i), c).push(s.skip(i + 1))
    }
}

#[via_fn]
proof fn split_on_decreases(s: Seq<char>, c: char) {
    lemma_last_index_of(s, c);
}

/// The parts of `parts` without the white space at either end, in order,
/// and without those of which nothing is left.
pub open spec fn trimmed_parts(parts: Seq<Seq<char>>) -> Seq<Seq<char>>
    decreases parts.len(),
{
    if parts.len() == 0 {
        Seq::empty()
    } else if trimmed(parts.last()).len() > 0 {
        trimmed_parts(parts.drop_last()).push(trimmed(parts.last()))
    } else {
        trimmed_parts(parts.drop_last())
    }
}

/// The parts of `text` between each two `separator`, each without the white
/// space at either end, without those of which nothing is left.
pub fn split_trimmed(text: &str, separator: char) -> (parts: Vec<String>)
    ensures
        texts(parts@) == trimmed_parts(split_on(text@, separator)),
{
    let chars = to_chars(text);
    let marks = white_space_marks(&chars);
    let len: usize = chars.len();
    let mut parts: Vec<String> = Vec::new();
    let mut start: usize = 0;
    let mut j: usize = 0;
    assert(texts(parts@) =~= trimmed_parts(Seq::empty()));
    while j < len
        invariant
            start <= j <= len == chars@.len(),
            chars@ == text@,
            marks_white_space(chars@, marks@),
            start == last_index_of(chars@.take(j as int), separator) + 1,
            texts(parts@) == trimmed_parts(
                if start == 0 {
                    Seq::empty()
                } else {
                    split_on(chars@.take(start - 1), separator)
                },
            ),
        decreases len - j,
    {
        assert(chars@.take(j + 1).drop_last() =~= chars@.take(j as int));
        if chars[j] == separator {
            let ghost earlier = if start == 0 {
                Seq::<Seq<char>>::empty()
            } else {
                split_on(chars@.take(start - 1), separator)
            };
            let ghost part = chars@.subrange(start as int, j as int);
            proof {
                lemma_split_prefix(chars@, separator, start as int, j as int);
                assert(earlier.push(part).drop_last() =~= earlier);
                assert(earlier.push(part).last() == part);
            }
            let ghost before = parts@;
            let range = trim_range(&chars, &marks, start, j);
            if range.0 < range.1 {
                parts.push(from_chars(&chars, range.0, range.1));
                assert(texts(parts@) =~= texts(before).push(trimmed(part)));
            }
            start = j + 1;
        }
        j += 1;
    }
    let ghost earlier = if start == 0 {
        Seq::<Seq<char>>::empty()
    } else {
        split_on(chars@.take(start - 1), separator)
    };
    let ghost part = chars@.subrange(start as int, len as int);
    proof {
        assert(chars@.take(len as int) =~= chars@);
        lemma_split_prefix(chars@, separator, start as int, len as int);
        assert(earlier.push(part).drop_last() =~= earlier);
        assert(earlier.push(part).last() == part);
    }
    let ghost before = parts@;
    let range = trim_range(&chars, &marks, start, len);
    if range.0 < range.1 {
        parts.push(from_chars(&chars, range.0, range.1));
        assert(texts(parts@) =~= texts(before).push(trimmed(part)));
    }
    parts
}

/// The parts of a prefix whose last separator stands just before `start`:
/// the parts of what stands before that separator, and the rest.
proof fn lemma_split_prefix(s: Seq<char>, c: char, start: int, j: int)
    requires
        0 <= start <= j <= s.len(),
        start == last_index_of(s.take(j), c) + 1,
    ensures
        split_on(s.take(j), c) == (if start == 0 {
            Seq::<Seq<char>>::empty()
        } else {
            split_on(s.take(start - 1), c)
        }).push(s.subrange(start, j)),
{
    if start == 0 {
        assert(s.take(j) =~= s.subrange(0, j));
        assert(split_on(s.take(j), c) =~= Seq::<Seq<char>>::empty().push(s.subrange(start, j)));
    } else {
        assert(s.take(j).take(start - 1) =~= s.take(start - 1));
        assert(s.take(j).skip(start) =~= s.subrange(start, j));
    }
}

} // verus!
