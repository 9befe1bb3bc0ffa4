//! Coarsening of client addresses, so that a stored address no longer names
//! one machine.

use crate::utils::text_utils::{count_of, from_chars, last_index_of, lemma_last_index_of, to_chars};
use vstd::prelude::*;

verus! {

/// The loopback address in its short form, which is kept whole.
pub open spec fn loopback_v6() -> Seq<char> {
    seq![':', ':', '1']
}

/// An address without its last component or components. With exactly three
/// dots, all that stands before the last dot: the first three groups. Else,
/// unless the text is `::1`, with two colons or more, all that stands before
/// the last but one colon: all groups but the last two. Any other text is
/// returned whole. A `::` counts as two colons like any other, so a
/// compressed address may lose fewer than two of its groups.
pub open spec fn first_bytes(ip: Seq<char>) -> Seq<char> {
    if count_of(ip, '.') == 3 {
        ip.take(last_index_of(ip, '.'))
    } else if ip != loopback_v6() && count_of(ip, ':') >= 2 {
        let last = last_index_of(ip, ':');
        ip.take(last_index_of(ip.take(last), ':'))
    } else {
        ip
    }
}

fn count_char(chars: &Vec<char>, c: char) -> (count: usize)
    ensures
        count == count_of(chars@, c),
{
    let mut count: usize = 0;
    let mut i: usize = 0;
    while i < chars.len()
        invariant
            i <= chars@.len(),
            count <= i,
            count == count_of(chars@.take(i as int), c),
        decreases chars@.len() - i,
    {
        assert(chars@.take(i + 1).drop_last() =~= chars@.take(i as int));
        if chars[i] == c {
            count += 1;
        }
        i += 1;
    }
    assert(chars@.take(chars@.len() as int) =~= chars@);
    count
}

fn last_index(chars: &Vec<char>, end: usize, c: char) -> (found: Option<usize>)
    requires
        end <= chars@.len(),
    ensures
        match found {
            Some(i) => i == last_index_of(chars@.take(end as int), c),
            None => last_index_of(chars@.take(end as int), c) == -1,
        },
{
    let mut i: usize = end;
    while i > 0
        invariant
            i <= end <= chars@.len(),
            last_index_of(chars@.take(end as int), c) == last_index_of(chars@.take(i as int), c),
        decreases i,
    {
        assert(chars@.take(i as int).drop_last() =~= chars@.take(i - 1));
        if chars[i - 1] == c {
            return Some(i - 1);
        }
        i -= 1;
    }
    None
}

/// Drops the last group of a dotted address of four groups, and the last two
/// groups of a colon-separated address other than `::1`.
pub fn extract_first_bytes(ip: &str) -> (kept: String)
    ensures
        kept@ == first_bytes(ip@),
{
    let chars = to_chars(ip);
    let len: usize = chars.len();
    proof {
        assert(chars@.take(len as int) =~= chars@);
        lemma_last_index_of(chars@, '.');
        lemma_last_index_of(chars@, ':');
    }
    if count_char(&chars, '.') == 3 {
        match last_index(&chars, len, '.') {
            Some(dot) => {
                return from_chars(&chars, 0, dot);
            },
            None => {},
        }
    } else {
        let loopback = len == 3 && chars[0] == ':' && chars[1] == ':' && chars[2] == '1';
        assert(loopback <==> chars@ =~= loopback_v6());
        if !loopback && count_char(&chars, ':') >= 2 {
            match last_index(&chars, len, ':') {
                Some(last) => {
                    proof {
                        lemma_last_index_of(chars@.take(last as int), ':');
                        assert(chars@.take(last as int).take(
                            last_index_of(chars@.take(last as int), ':'),
                        ) =~= chars@.take(last_index_of(chars@.take(last as int), ':')));
                    }
                    match last_index(&chars, last, ':') {
                        Some(cut) => {
                            return from_chars(&chars, 0, cut);
                        },
                        None => {},
                    }
                },
                None => {},
            }
        }
    }
    from_chars(&chars, 0, len)
}

} // verus!
