use blog_backend::stats::pseudonymizer::{
    bytes_to_u64, find_line, first_8_bytes, hash_to_8_bytes, line_count, Cache, CacheEntry,
    Lookup, PseudonymizerError, WordlistPseudoyimizer, CACHE_CAPACITY,
};

fn fixed_wordlist() -> Vec<u8> {
    let mut text = String::new();
    for i in 1..=16 {
        text.push_str(&format!("Line {}\n", i));
    }
    text.into_bytes()
}

fn open_fixture() -> WordlistPseudoyimizer {
    let codebook = fixed_wordlist();
    WordlistPseudoyimizer::open("./resources/fixtures/fixed_wordlist.txt", Some(&codebook[..]))
        .unwrap()
}

#[test]
fn count_lines_in_wordlist() {
    let mut words = Vec::new();
    for i in 0..466462u32 {
        words.extend_from_slice(format!("word{}\n", i).as_bytes());
    }
    let sut = WordlistPseudoyimizer::open("./resources/words.txt", Some(&words[..])).unwrap();
    assert_eq!(sut.line_count(), 466462);
}

#[test]
fn find_line_in_fixture() {
    let codebook = fixed_wordlist();
    let sut = open_fixture();
    assert_eq!("Line 1", sut.find_value_at_line(Some(&codebook[..]), 0).unwrap());
}

#[test]
fn pseudonymize_string_1() {
    let codebook = fixed_wordlist();
    let mut sut = open_fixture();
    assert_eq!("Line 11", sut.pseudonymize("test", Some(&codebook[..])).unwrap());
    // Test the cache, I guess:
    assert_eq!(1, sut.cached());
    assert_eq!("Line 11", sut.pseudonymize("test", Some(&codebook[..])).unwrap());
}

#[test]
fn pseudonymize_string_2() {
    let codebook = fixed_wordlist();
    let mut sut = open_fixture();
    assert_eq!(
        "Line 3",
        sut.pseudonymize("This is a very long string right there", Some(&codebook[..]))
            .unwrap()
    );
}

#[test]
fn can_clone_cache_entry() {
    let sut = CacheEntry::new(22, String::from("value"));
    let mut clone = sut.clone();
    assert_eq!(sut, clone);
    clone.value = "changed".to_string();
    assert_ne!(sut.value, clone.value);
}

#[test]
fn cache_miss_on_empty_cache() {
    let cache = Cache::new(CACHE_CAPACITY);
    let miss = cache.get(2389472);
    assert_eq!(miss, None);
}

#[test]
fn cache_hit_and_miss() {
    let mut cache = Cache::new(CACHE_CAPACITY);
    cache.add(CacheEntry::new(3, String::from("3")));
    cache.add(CacheEntry::new(6, String::from("6")));
    let miss = cache.get(2389472);
    let hit = cache.get(3).unwrap();
    assert_eq!(miss, None);
    assert_eq!(3, hit.key);
    assert_eq!("3", hit.value);
}

#[test]
fn sha1_extract_first_8_bytes() {
    let extract: [u8; 8] = hash_to_8_bytes("hello world");
    assert_eq!(extract.len(), 8);
    assert_eq!(extract, [42, 174, 108, 53, 201, 79, 207, 180]);
}

#[test]
fn hash_to_u64() {
    let bytes = hash_to_8_bytes("hello world");
    let value: u64 = bytes_to_u64(bytes);
    assert_eq!(value, 13028719972609469994);
}

#[test]
fn bytes_to_u64_reads_little_endian() {
    assert_eq!(bytes_to_u64([1, 0, 0, 0, 0, 0, 0, 0]), 1);
    assert_eq!(bytes_to_u64([0, 1, 0, 0, 0, 0, 0, 0]), 256);
    assert_eq!(bytes_to_u64([0, 0, 0, 0, 0, 0, 0, 1]), 1u64 << 56);
    assert_eq!(bytes_to_u64([255; 8]), u64::MAX);
}

#[test]
fn digest_is_not_the_input() {
    // The digest of eight bytes is not those eight bytes.
    assert_ne!(hash_to_8_bytes("abcdefgh"), *b"abcdefgh");
    assert_eq!(
        hash_to_8_bytes("test"),
        [0xa9, 0x4a, 0x8f, 0xe5, 0xcc, 0xb1, 0x9b, 0xa6]
    );
}

#[test]
fn open_fails_on_empty_codebook() {
    let empty: Vec<u8> = Vec::new();
    assert_eq!(
        WordlistPseudoyimizer::open("empty.txt", Some(&empty[..])).err(),
        Some(PseudonymizerError::EmptyCodebook)
    );
    // Text without a line feed holds no counted line.
    assert_eq!(
        WordlistPseudoyimizer::open("one.txt", Some(&b"word"[..])).err(),
        Some(PseudonymizerError::EmptyCodebook)
    );
}

#[test]
fn open_fails_on_unreadable_codebook() {
    assert_eq!(
        WordlistPseudoyimizer::open("missing.txt", None).err(),
        Some(PseudonymizerError::CodebookUnreadable)
    );
}

#[test]
fn line_count_counts_line_feeds() {
    assert_eq!(line_count(b"some text\nwith\nfour\nlines\n"), Ok(4));
    assert_eq!(line_count(b"a\nb"), Ok(1));
    assert_eq!(line_count(b"\n\n\n"), Ok(3));
    assert_eq!(line_count(b""), Err(PseudonymizerError::EmptyCodebook));
    assert_eq!(line_count(b"no line feed"), Err(PseudonymizerError::EmptyCodebook));
}

#[test]
fn find_line_splits_at_line_feeds() {
    let text = b"alpha\nbeta\r\n\ngamma";
    assert_eq!(find_line(text, 0), Some(&b"alpha"[..]));
    assert_eq!(find_line(text, 1), Some(&b"beta"[..]));
    assert_eq!(find_line(text, 2), Some(&b""[..]));
    assert_eq!(find_line(text, 3), Some(&b"gamma"[..]));
    assert_eq!(find_line(text, 4), None);
    assert_eq!(find_line(b"", 0), None);
    assert_eq!(find_line(b"a\n", 1), None);
    // A carriage return is dropped only before a line feed.
    assert_eq!(find_line(b"a\r", 0), Some(&b"a\r"[..]));
    assert_eq!(find_line(b"\r\n", 0), Some(&b""[..]));
}

#[test]
fn find_value_wraps_around_the_line_count() {
    let codebook = fixed_wordlist();
    let sut = open_fixture();
    assert_eq!("Line 1", sut.find_value_at_line(Some(&codebook[..]), 16).unwrap());
    assert_eq!("Line 16", sut.find_value_at_line(Some(&codebook[..]), 15).unwrap());
    assert_eq!("Line 4", sut.find_value_at_line(Some(&codebook[..]), 35).unwrap());
}

#[test]
fn lookup_fails_when_codebook_is_gone_or_shorter() {
    let mut sut = open_fixture();
    assert_eq!(
        sut.pseudonymize("test", None),
        Err(PseudonymizerError::CodebookUnreadable)
    );
    assert_eq!(
        sut.pseudonymize("test", Some(&b"Line 1\nLine 2\n"[..])),
        Err(PseudonymizerError::LineNotFound)
    );
    // A failed lookup is not remembered.
    assert_eq!(sut.cached(), 0);
    let mut broken = fixed_wordlist();
    let at = broken.windows(7).position(|w| w == b"Line 11").unwrap();
    broken[at] = 0xff;
    assert_eq!(
        sut.pseudonymize("test", Some(&broken[..])),
        Err(PseudonymizerError::LineNotText)
    );
}

#[test]
fn pseudonymize_is_deterministic() {
    let codebook = fixed_wordlist();
    let mut first = open_fixture();
    let mut second = open_fixture();
    for value in ["test", "Mozilla/5.0", "192.168.1.5", "", "é"] {
        let a = first.pseudonymize(value, Some(&codebook[..])).unwrap();
        let b = first.pseudonymize(value, Some(&codebook[..])).unwrap();
        let c = second.pseudonymize(value, Some(&codebook[..])).unwrap();
        assert_eq!(a, b);
        assert_eq!(a, c);
    }
}

#[test]
fn cached_pseudonym_needs_no_codebook() {
    let codebook = fixed_wordlist();
    let mut sut = open_fixture();
    assert!(matches!(sut.lookup("test"), Lookup::Missing(12005384725269007017)));
    assert_eq!(sut.line_for(12005384725269007017), 10);
    assert_eq!("Line 11", sut.resolve(12005384725269007017, Some(&codebook[..])).unwrap());
    assert!(matches!(sut.lookup("test"), Lookup::Cached(word) if word == "Line 11"));
    assert_eq!("Line 11", sut.pseudonymize("test", None).unwrap());
}

#[test]
fn single_line_codebook_always_gives_its_line() {
    let mut sut = WordlistPseudoyimizer::open("one.txt", Some(&b"only\n"[..])).unwrap();
    assert_eq!(sut.line_count(), 1);
    assert_eq!(sut.line_for(u64::MAX), 0);
    assert_eq!("only", sut.pseudonymize("test", Some(&b"only\n"[..])).unwrap());
}

#[test]
fn cache_evicts_first_inserted_even_when_hit() {
    let mut cache = Cache::new(3);
    cache.add(CacheEntry::new(1, String::from("one")));
    cache.add(CacheEntry::new(2, String::from("two")));
    cache.add(CacheEntry::new(3, String::from("three")));
    // A hit does not move the entry to the back.
    assert_eq!(cache.get(1).unwrap().value, "one");
    cache.add(CacheEntry::new(4, String::from("four")));
    assert_eq!(cache.get(1), None);
    assert_eq!(cache.get(2).unwrap().value, "two");
    assert_eq!(cache.get(4).unwrap().value, "four");
    assert_eq!(cache.len(), 3);
}

#[test]
fn cache_returns_latest_entry_of_a_key() {
    let mut cache = Cache::new(4);
    cache.add(CacheEntry::new(7, String::from("old")));
    cache.add(CacheEntry::new(7, String::from("new")));
    assert_eq!(cache.get(7).unwrap().value, "new");
    assert_eq!(cache.len(), 2);
}

#[test]
fn cache_of_capacity_zero_keeps_last_entry() {
    let mut cache = Cache::new(0);
    cache.add(CacheEntry::new(1, String::from("one")));
    assert_eq!(cache.len(), 1);
    cache.add(CacheEntry::new(2, String::from("two")));
    assert_eq!(cache.len(), 1);
    assert_eq!(cache.get(1), None);
    assert_eq!(cache.get(2).unwrap().value, "two");
}

#[test]
fn pseudonymizer_cache_holds_fifty() {
    let mut codebook = Vec::new();
    for i in 0..1000 {
        codebook.extend_from_slice(format!("w{}\n", i).as_bytes());
    }
    let mut sut = WordlistPseudoyimizer::open("w.txt", Some(&codebook[..])).unwrap();
    for i in 0..60 {
        sut.pseudonymize(&format!("value {}", i), Some(&codebook[..])).unwrap();
    }
    assert_eq!(sut.cached(), 50);
    assert!(matches!(sut.lookup("value 0"), Lookup::Missing(_)));
    assert!(matches!(sut.lookup("value 59"), Lookup::Cached(_)));
}

#[test]
fn first_8_bytes_takes_the_head() {
    let mut digest = [0u8; 20];
    for (i, byte) in digest.iter_mut().enumerate() {
        *byte = i as u8 + 1;
    }
    assert_eq!(first_8_bytes(digest), [1, 2, 3, 4, 5, 6, 7, 8]);
}
