use blog_backend::stats::pseudonymizer::{
    find_line, line_to_text, LineScan, Lookup, PseudonymizerError, WordlistPseudoyimizer,
};
use blog_backend::stats::{assemble, stored_pseudonym_of, BaseArticleStat};
use blog_backend::stats::ip_location::GeoError;

fn scan_in_chunks(text: &[u8], target: u64, size: usize) -> Option<Vec<u8>> {
    let mut scan = LineScan::new(target);
    for chunk in text.chunks(size) {
        scan = scan.feed(chunk);
        if scan.is_done() {
            break;
        }
    }
    scan.finish()
}

#[test]
fn scan_agrees_with_find_line_for_every_chunking() {
    let texts: [&[u8]; 7] = [
        b"alpha\nbeta\r\n\ngamma",
        b"",
        b"\n",
        b"one\n",
        b"no line feed",
        b"a\r\n\r\nb\r",
        b"\n\n\nlast\n",
    ];
    for text in texts {
        for target in 0..6u64 {
            let expected = find_line(text, target).map(|line| line.to_vec());
            for size in 1..=text.len().max(1) {
                assert_eq!(scan_in_chunks(text, target, size), expected);
            }
        }
    }
}

#[test]
fn scan_stops_at_the_end_of_its_line() {
    let mut scan = LineScan::new(1);
    assert_eq!(scan.target_line(), 1);
    scan = scan.feed(b"first\nsec");
    assert!(!scan.is_done());
    scan = scan.feed(b"ond\nthi");
    assert!(scan.is_done());
    // What follows changes nothing.
    scan = scan.feed(b"rd\nfourth\n");
    assert_eq!(scan.finish(), Some(b"second".to_vec()));
    let scan = LineScan::new(3).feed(b"a\nb\n");
    assert!(!scan.is_done());
    assert_eq!(scan.finish(), None);
}

#[test]
fn resolve_scan_remembers_the_line() {
    let mut codebook = Vec::new();
    for i in 1..=16 {
        codebook.extend_from_slice(format!("Line {}\n", i).as_bytes());
    }
    let mut sut = WordlistPseudoyimizer::open("w", Some(&codebook[..])).unwrap();
    let digest = match sut.lookup("test") {
        Lookup::Missing(digest) => digest,
        Lookup::Cached(_) => panic!("nothing was looked up yet"),
    };
    let mut scan = sut.scan_for(digest);
    assert_eq!(scan.target_line(), 10);
    for chunk in codebook.chunks(5) {
        scan = scan.feed(chunk);
        if scan.is_done() {
            break;
        }
    }
    assert_eq!(sut.resolve_scan(digest, Some(scan)).unwrap(), "Line 11");
    assert!(matches!(sut.lookup("test"), Lookup::Cached(word) if word == "Line 11"));
    assert_eq!(
        sut.resolve_scan(digest, None),
        Err(PseudonymizerError::CodebookUnreadable)
    );
    let short = sut.scan_for(digest).feed(b"Line 1\n");
    assert_eq!(
        sut.resolve_scan(digest, Some(short)),
        Err(PseudonymizerError::LineNotFound)
    );
    assert_eq!(sut.cached(), 1);
    // The scan says which line is remembered.
    let other = LineScan::new(0).feed(b"Line 1\n");
    assert_eq!(sut.resolve_scan(7, Some(other)).unwrap(), "Line 1");
    assert_eq!(sut.cached(), 2);
}

#[test]
fn line_to_text_checks_the_encoding() {
    assert_eq!(line_to_text(Some(&b"word"[..])), Ok("word".to_string()));
    assert_eq!(line_to_text(Some("é".as_bytes())), Ok("é".to_string()));
    assert_eq!(line_to_text(Some(&b""[..])), Ok(String::new()));
    assert_eq!(line_to_text(Some(&[0xc3u8][..])), Err(PseudonymizerError::LineNotText));
    assert_eq!(line_to_text(None), Err(PseudonymizerError::LineNotFound));
}

#[test]
fn remember_keeps_failures_out_of_the_cache() {
    let mut sut = WordlistPseudoyimizer::open("w", Some(&b"a\nb\n"[..])).unwrap();
    assert_eq!(
        sut.remember(5, Err(PseudonymizerError::LineNotText)),
        Err(PseudonymizerError::LineNotText)
    );
    assert_eq!(sut.cached(), 0);
    assert_eq!(sut.remember(5, Ok("a".to_string())), Ok("a".to_string()));
    assert_eq!(sut.cached(), 1);
}

#[test]
fn assemble_puts_the_record_together() {
    let event = BaseArticleStat {
        article_id: 3,
        client_ua: "ua".to_string(),
        client_ip: "2001:0db8:85a3:0000:0000:8a2e:0370:7334".to_string(),
    };
    let record = assemble(
        event,
        Err(GeoError::LookupFailed),
        stored_pseudonym_of(Ok("word".to_string())),
        stored_pseudonym_of(Err(PseudonymizerError::LineNotFound)),
    );
    assert_eq!(record.id, -1);
    assert_eq!(record.article_id, 3);
    assert_eq!(record.pseudo_ua, "Word");
    assert_eq!(record.pseudo_ip, "");
    assert_eq!(record.client_ua, "ua");
    assert_eq!(record.client_ip, "2001:0db8:85a3:0000:0000:8a2e");
    assert_eq!(record.date, None);
    assert_eq!(record.country, "");
}
