//! Deterministic pseudonyms drawn from a codebook, with a small cache of the
//! words already looked up.

pub use crate::stats::cache::{Cache, CacheEntry};
pub use crate::stats::codebook::{find_line, LineScan};

use crate::stats::cache::{cache_bound, cached_value, fifo_push, is_latest_match};
use crate::stats::codebook::{
    lemma_counted_line_exists, lemma_newline_count_bound, line_at, newline_count,
};
use sha1::Digest;
use vstd::prelude::*;
use vstd::utf8::{decode_utf8, encode_utf8, valid_utf8};

verus! {

/// Number of pseudonyms that a pseudonymizer remembers.
pub const CACHE_CAPACITY: usize = 50;

/// The SHA-1 digest of `data`, twenty bytes.
pub uninterp spec fn sha1(data: Seq<u8>) -> Seq<u8>;

/// Calls `sha1::Sha1::digest`: the result is the SHA-1 digest of `data`, a
/// function of the bytes alone.
#[verifier::external_body]
fn sha1_digest(data: &[u8]) -> (digest: [u8; 20])
    ensures
        digest@ == sha1(data@),
{
    sha1::Sha1::digest(data).into()
}

/// The unsigned integer whose little-endian representation is the eight bytes
/// of `bytes`.
pub open spec fn le_u64(bytes: Seq<u8>) -> int
    recommends
        bytes.len() == 8,
{
    bytes[0] as int + bytes[1] as int * 0x100 + bytes[2] as int * 0x1_0000 + bytes[3] as int
        * 0x100_0000 + bytes[4] as int * 0x1_0000_0000 + bytes[5] as int * 0x100_0000_0000
        + bytes[6] as int * 0x1_0000_0000_0000 + bytes[7] as int * 0x100_0000_0000_0000
}

/// The 64-bit digest of a value: the first eight bytes of the SHA-1 digest of
/// its UTF-8 encoding, read as a little-endian integer.
pub open spec fn digest_of(value: Seq<char>) -> u64 {
    le_u64(sha1(encode_utf8(value)).take(8)) as u64
}

/// First eight bytes of the SHA-1 digest of `value`.
pub fn hash_to_8_bytes(value: &str) -> (hash: [u8; 8])
    ensures
        hash@ == sha1(encode_utf8(value@)).take(8),
{
    first_8_bytes(sha1_digest(value.as_bytes()))
}

/// First eight bytes of a digest.
pub fn first_8_bytes(digest: [u8; 20]) -> (hash: [u8; 8])
    ensures
        hash@ == digest@.take(8),
{
    let hash = [
        digest[0],
        digest[1],
        digest[2],
        digest[3],
        digest[4],
        digest[5],
        digest[6],
        digest[7],
    ];
    assert(hash@ =~= digest@.take(8));
    hash
}

/// Reads eight bytes as a little-endian integer, the same on every machine.
pub fn bytes_to_u64(hash: [u8; 8]) -> (value: u64)
    ensures
        value == le_u64(hash@),
{
    (hash[0] as u64) + (hash[1] as u64) * 0x100 + (hash[2] as u64) * 0x1_0000 + (hash[3] as u64)
        * 0x100_0000 + (hash[4] as u64) * 0x1_0000_0000 + (hash[5] as u64) * 0x100_0000_0000
        + (hash[6] as u64) * 0x1_0000_0000_0000 + (hash[7] as u64) * 0x100_0000_0000_0000
}

/// Width of the band of digests that share one line of a codebook of
/// `line_count` lines.
pub open spec fn increment_for(line_count: int) -> int
    recommends
        line_count >= 1,
{
    u64::MAX as int / line_count + 1
}

/// The line, counted from zero, that stands for `digest` in a codebook of
/// `line_count` lines.
pub open spec fn line_index(digest: int, line_count: int) -> int
    recommends
        line_count >= 1,
{
    (digest / increment_for(line_count)) % line_count
}

/// Why a pseudonymizer could not be opened or a pseudonym could not be found.
#[derive(Debug, Clone, Copy, PartialEq, Eq, Structural)]
pub enum PseudonymizerError {
    /// The codebook could not be read.
    CodebookUnreadable,
    /// The codebook holds no line.
    EmptyCodebook,
    /// The codebook ends before the line that was asked for.
    LineNotFound,
    /// The line that was asked for is not UTF-8 text.
    LineNotText,
}

/// Calls `linecount::count_lines` on a byte slice, a reader that cannot fail:
/// the count is the number of line feed bytes.
#[verifier::external_body]
fn count_lines(bytes: &[u8]) -> (count: Option<usize>)
    ensures
        count == Some(newline_count(bytes@) as usize),
{
    linecount::count_lines(bytes).ok()
}

/// Calls `std::str::from_utf8`: the bytes are returned as text exactly when
/// they are valid UTF-8.
#[verifier::external_body]
fn str_from_utf8(bytes: &[u8]) -> (text: Option<&str>)
    ensures
        text is Some <==> valid_utf8(bytes@),
        text is Some ==> text->0@ == decode_utf8(bytes@),
{
    std::str::from_utf8(bytes).ok()
}

/// Number of lines of a codebook, which has to hold one at least.
pub fn line_count(codebook: &[u8]) -> (count: Result<u64, PseudonymizerError>)
    ensures
        match count {
            Ok(lines) => lines >= 1 && lines == newline_count(codebook@),
            Err(e) => e == PseudonymizerError::EmptyCodebook && newline_count(codebook@) == 0,
        },
{
    proof {
        lemma_newline_count_bound(codebook@);
        assert(codebook@.len() == vstd::slice::spec_slice_len(codebook));
    }
    match count_lines(codebook) {
        None => Err(PseudonymizerError::CodebookUnreadable),
        Some(lines) => {
            if lines < 1 {
                Err(PseudonymizerError::EmptyCodebook)
            } else {
                Ok(lines as u64)
            }
        },
    }
}

/// The bytes that a caller read from the codebook, or `None` where it could
/// not be read.
pub open spec fn codebook_view(codebook: Option<&[u8]>) -> Option<Seq<u8>> {
    match codebook {
        Some(bytes) => Some(bytes@),
        None => None,
    }
}

/// The text of a line that a scan of the codebook gave, or the reason why
/// there is none: the scan ran into the end, or the line is not UTF-8.
pub open spec fn text_of_line(line: Option<Seq<u8>>) -> Result<Seq<char>, PseudonymizerError> {
    match line {
        None => Err(PseudonymizerError::LineNotFound),
        Some(line) => if valid_utf8(line) {
            Ok(decode_utf8(line))
        } else {
            Err(PseudonymizerError::LineNotText)
        },
    }
}

/// The text of line `n` of a codebook, counting from zero, or the reason why
/// there is none.
pub open spec fn line_text(codebook: Option<Seq<u8>>, n: nat) -> Result<
    Seq<char>,
    PseudonymizerError,
> {
    match codebook {
        None => Err(PseudonymizerError::CodebookUnreadable),
        Some(bytes) => text_of_line(line_at(bytes, n)),
    }
}

/// The bytes of a line that a scan gave, if it gave one.
pub open spec fn line_view(line: Option<&[u8]>) -> Option<Seq<u8>> {
    match line {
        Some(bytes) => Some(bytes@),
        None => None,
    }
}

/// The text of a line that a scan of the codebook gave.
pub fn line_to_text(line: Option<&[u8]>) -> (text: Result<String, PseudonymizerError>)
    ensures
        text_view(text) == text_of_line(line_view(line)),
{
    match line {
        None => Err(PseudonymizerError::LineNotFound),
        Some(found) => match str_from_utf8(found) {
            None => Err(PseudonymizerError::LineNotText),
            Some(text) => Ok(text.to_owned()),
        },
    }
}

/// The characters of a result that holds a string.
pub open spec fn text_view(result: Result<String, PseudonymizerError>) -> Result<
    Seq<char>,
    PseudonymizerError,
> {
    match result {
        Ok(text) => Ok(text@),
        Err(e) => Err(e),
    }
}

/// The pseudonym of `value`: what a pseudonymizer of `line_count` lines answers
/// with `cache` in its memory and `codebook` before it.
pub open spec fn pseudonym(
    cache: Seq<(u64, Seq<char>)>,
    line_count: int,
    codebook: Option<Seq<u8>>,
    value: Seq<char>,
) -> Result<Seq<char>, PseudonymizerError> {
    match cached_value(cache, digest_of(value)) {
        Some(word) => Ok(word),
        None => line_text(codebook, line_index(digest_of(value) as int, line_count) as nat),
    }
}

/// The cache of a pseudonymizer after it answered `answer` for `value`: a word
/// that was read from the codebook is remembered, and nothing else changes.
pub open spec fn cache_after(
    cache: Seq<(u64, Seq<char>)>,
    capacity: nat,
    value: Seq<char>,
    answer: Result<Seq<char>, PseudonymizerError>,
) -> Seq<(u64, Seq<char>)> {
    match answer {
        Ok(word) if cached_value(cache, digest_of(value)) is None => fifo_push(
            cache,
            capacity,
            (digest_of(value), word),
        ),
        _ => cache,
    }
}

/// Maps any string to a word of a codebook, the same word each time, and
/// remembers the words it has looked up.
pub struct WordlistPseudoyimizer {
    filename: String,
    line_count: u64,
    cache: Cache,
    increment: u128,
}

/// What the cache of a pseudonymizer knows of a value.
#[derive(Debug)]
pub enum Lookup {
    /// The pseudonym was looked up before and is still remembered.
    Cached(String),
    /// The pseudonym has to be read from the codebook, for this digest.
    Missing(u64),
}

impl WordlistPseudoyimizer {
    #[verifier::type_invariant]
    spec fn well_formed(self) -> bool {
        &&& self.line_count >= 1
        &&& self.increment == increment_for(self.line_count as int)
    }

    /// Path of the codebook that the pseudonymizer was opened on.
    pub closed spec fn spec_filename(&self) -> Seq<char> {
        self.filename@
    }

    /// Number of lines that the codebook was counted to have.
    pub closed spec fn spec_line_count(&self) -> int {
        self.line_count as int
    }

    /// The remembered pseudonyms, oldest first.
    pub closed spec fn spec_cache(&self) -> Seq<(u64, Seq<char>)> {
        self.cache@
    }

    /// Capacity of the cache of remembered pseudonyms.
    pub closed spec fn spec_cache_capacity(&self) -> nat {
        self.cache.spec_capacity()
    }

    /// Opens a pseudonymizer on the codebook at `filename`, whose bytes the
    /// caller has read, or could not read.
    pub fn open(filename: &str, codebook: Option<&[u8]>) -> (opened: Result<
        WordlistPseudoyimizer,
        PseudonymizerError,
    >)
        ensures
            match opened {
                Ok(pseudonymizer) => {
                    &&& codebook is Some
                    &&& newline_count(codebook->0@) >= 1
                    &&& pseudonymizer.spec_line_count() == newline_count(codebook->0@)
                    &&& pseudonymizer.spec_filename() == filename@
                    &&& pseudonymizer.spec_cache() == Seq::<(u64, Seq<char>)>::empty()
                    &&& pseudonymizer.spec_cache_capacity() == CACHE_CAPACITY
                },
                Err(e) => match codebook {
                    None => e == PseudonymizerError::CodebookUnreadable,
                    Some(bytes) => e == PseudonymizerError::EmptyCodebook && newline_count(bytes@)
                        == 0,
                },
            },
    {
        match codebook {
            None => Err(PseudonymizerError::CodebookUnreadable),
            Some(bytes) => match line_count(bytes) {
                Err(e) => Err(e),
                Ok(line_count) => Ok(
                    WordlistPseudoyimizer {
                        filename: filename.to_owned(),
                        line_count,
                        cache: Cache::new(CACHE_CAPACITY),
                        increment: (u64::MAX as u128) / (line_count as u128) + 1,
                    },
                ),
            },
        }
    }

    /// Number of lines of the codebook.
    pub fn line_count(&self) -> (count: u64)
        ensures
            count == self.spec_line_count(),
            count >= 1,
    {
        proof {
            use_type_invariant(self);
        }
        self.line_count
    }

    /// Number of pseudonyms remembered.
    pub fn cached(&self) -> (count: usize)
        ensures
            count == self.spec_cache().len(),
            count <= cache_bound(self.spec_cache_capacity()),
    {
        self.cache.len()
    }

    /// The line of the codebook, counted from zero, that stands for `digest`.
    pub fn line_for(&self, digest: u64) -> (line: u64)
        ensures
            line == line_index(digest as int, self.spec_line_count()),
            line < self.spec_line_count(),
    {
        proof {
            use_type_invariant(self);
        }
        (((digest as u128) / self.increment) % (self.line_count as u128)) as u64
    }

    /// Reads line `line` of the codebook, or line `line` modulo the number of
    /// lines where it is larger. Lines count from zero.
    pub fn find_value_at_line(&self, codebook: Option<&[u8]>, line: u64) -> (value: Result<
        String,
        PseudonymizerError,
    >)
        ensures
            text_view(value) == line_text(
                codebook_view(codebook),
                (line as int % self.spec_line_count()) as nat,
            ),
    {
        proof {
            use_type_invariant(self);
        }
        let line_n: u64 = line % self.line_count;
        match codebook {
            None => Err(PseudonymizerError::CodebookUnreadable),
            Some(bytes) => line_to_text(find_line(bytes, line_n)),
        }
    }

    /// Looks `value` up in the cache alone.
    pub fn lookup(&self, value: &str) -> (found: Lookup)
        ensures
            match found {
                Lookup::Cached(word) => cached_value(self.spec_cache(), digest_of(value@)) == Some(
                    word@,
                ),
                Lookup::Missing(digest) => digest == digest_of(value@) && cached_value(
                    self.spec_cache(),
                    digest,
                ) is None,
            },
    {
        let hash: u64 = bytes_to_u64(hash_to_8_bytes(value));
        match self.cache.get(hash) {
            Some(entry) => Lookup::Cached(entry.value.clone()),
            None => Lookup::Missing(hash),
        }
    }

    /// Takes in what a read of the codebook gave for `digest`: a pseudonym is
    /// remembered, evicting the oldest remembered one where the cache is
    /// full, and a failure leaves the cache as it was.
    pub fn remember(&mut self, digest: u64, read: Result<String, PseudonymizerError>) -> (word:
        Result<String, PseudonymizerError>)
        ensures
            text_view(word) == text_view(read),
            final(self).spec_cache() == match read {
                Ok(text) => fifo_push(
                    old(self).spec_cache(),
                    old(self).spec_cache_capacity(),
                    (digest, text@),
                ),
                Err(_) => old(self).spec_cache(),
            },
            final(self).spec_cache_capacity() == old(self).spec_cache_capacity(),
            final(self).spec_line_count() == old(self).spec_line_count(),
            final(self).spec_filename() == old(self).spec_filename(),
    {
        proof {
            use_type_invariant(&*self);
        }
        match read {
            Err(e) => Err(e),
            Ok(pseudo) => {
                let mut cache = Cache::new(0);
                std::mem::swap(&mut cache, &mut self.cache);
                cache.add(CacheEntry::new(digest, pseudo.clone()));
                self.cache = cache;
                Ok(pseudo)
            },
        }
    }

    /// Reads the pseudonym that stands for `digest` from the codebook and
    /// remembers it, evicting the oldest remembered pseudonym where the cache
    /// is full. A failed read leaves the cache as it was.
    pub fn resolve(&mut self, digest: u64, codebook: Option<&[u8]>) -> (word: Result<
        String,
        PseudonymizerError,
    >)
        ensures
            text_view(word) == line_text(
                codebook_view(codebook),
                line_index(digest as int, old(self).spec_line_count()) as nat,
            ),
            final(self).spec_cache() == match word {
                Ok(text) => fifo_push(
                    old(self).spec_cache(),
                    old(self).spec_cache_capacity(),
                    (digest, text@),
                ),
                Err(_) => old(self).spec_cache(),
            },
            final(self).spec_cache_capacity() == old(self).spec_cache_capacity(),
            final(self).spec_line_count() == old(self).spec_line_count(),
            final(self).spec_filename() == old(self).spec_filename(),
    {
        proof {
            use_type_invariant(&*self);
        }
        let line: u128 = (digest as u128) / self.increment;
        assert(line <= u64::MAX);
        let read = self.find_value_at_line(codebook, line as u64);
        self.remember(digest, read)
    }

    /// The pseudonym of `value`: the remembered one where there is one, else
    /// the line of the codebook that the digest of `value` selects.
    pub fn pseudonymize(&mut self, value: &str, codebook: Option<&[u8]>) -> (word: Result<
        String,
        PseudonymizerError,
    >)
        ensures
            text_view(word) == pseudonym(
                old(self).spec_cache(),
                old(self).spec_line_count(),
                codebook_view(codebook),
                value@,
            ),
            final(self).spec_cache() == cache_after(
                old(self).spec_cache(),
                old(self).spec_cache_capacity(),
                value@,
                text_view(word),
            ),
            final(self).spec_cache_capacity() == old(self).spec_cache_capacity(),
            final(self).spec_line_count() == old(self).spec_line_count(),
            final(self).spec_filename() == old(self).spec_filename(),
            codebook is Some && cache_agrees(
                old(self).spec_cache(),
                old(self).spec_line_count(),
                codebook->0@,
            ) ==> {
                &&& text_view(word) == line_text(
                    Some(codebook->0@),
                    line_index(digest_of(value@) as int, old(self).spec_line_count()) as nat,
                )
                &&& cache_agrees(
                    final(self).spec_cache(),
                    final(self).spec_line_count(),
                    codebook->0@,
                )
            },
    {
        let word = match self.lookup(value) {
            Lookup::Cached(pseudo) => Ok(pseudo),
            Lookup::Missing(hash) => self.resolve(hash, codebook),
        };
        proof {
            let cache = old(self).spec_cache();
            let lines = old(self).spec_line_count();
            if codebook is Some && cache_agrees(cache, lines, codebook->0@) {
                lemma_pseudonym_deterministic(cache, cache, lines, codebook->0@, value@);
                if word is Ok && cached_value(cache, digest_of(value@)) is None {
                    lemma_fifo_push_agrees(
                        cache,
                        old(self).spec_cache_capacity(),
                        lines,
                        codebook->0@,
                        digest_of(value@),
                        word->Ok_0@,
                    );
                }
            }
        }
        word
    }

    /// A scan for the line of the codebook that stands for `digest`, to be
    /// fed with the codebook piece by piece.
    pub fn scan_for(&self, digest: u64) -> (scan: LineScan)
        ensures
            scan.target() == line_index(digest as int, self.spec_line_count()),
            scan.fed() == Seq::<u8>::empty(),
    {
        LineScan::new(self.line_for(digest))
    }

    /// Takes in the scan that was made for `digest`, or `None` where the
    /// codebook could not be read: the line that the scan was after is
    /// remembered as the pseudonym for `digest`. With the scan that
    /// `scan_for` made for `digest`, this does what `resolve` does on the
    /// bytes that were fed to the scan.
    pub fn resolve_scan(&mut self, digest: u64, scan: Option<LineScan>) -> (word: Result<
        String,
        PseudonymizerError,
    >)
        ensures
            text_view(word) == match scan {
                Some(scan) => line_text(Some(scan.fed()), scan.target()),
                None => Err(PseudonymizerError::CodebookUnreadable),
            },
            final(self).spec_cache() == match word {
                Ok(text) => fifo_push(
                    old(self).spec_cache(),
                    old(self).spec_cache_capacity(),
                    (digest, text@),
                ),
                Err(_) => old(self).spec_cache(),
            },
            final(self).spec_cache_capacity() == old(self).spec_cache_capacity(),
            final(self).spec_line_count() == old(self).spec_line_count(),
            final(self).spec_filename() == old(self).spec_filename(),
    {
        let read = match scan {
            None => Err(PseudonymizerError::CodebookUnreadable),
            Some(scan) => match scan.finish() {
                Some(line) => line_to_text(Some(line.as_slice())),
                None => line_to_text(None),
            },
        };
        self.remember(digest, read)
    }
}

/// Whether every remembered pseudonym is the line of `codebook` that its
/// digest selects.
pub open spec fn cache_agrees(cache: Seq<(u64, Seq<char>)>, line_count: int, codebook: Seq<u8>) -> bool {
    forall|i: int|
        0 <= i < cache.len() ==> line_text(
            Some(codebook),
            line_index((#[trigger] cache[i]).0 as int, line_count) as nat,
        ) == Ok::<Seq<char>, PseudonymizerError>(cache[i].1)
}

/// Determinism. Against one codebook, a value has one pseudonym: whatever the
/// cache remembers, the answer is the line that the digest of the value
/// selects, so two lookups of the same value agree, whether served from the
/// cache or read from the codebook.
pub proof fn lemma_pseudonym_deterministic(
    cache_a: Seq<(u64, Seq<char>)>,
    cache_b: Seq<(u64, Seq<char>)>,
    line_count: int,
    codebook: Seq<u8>,
    value: Seq<char>,
)
    requires
        cache_agrees(cache_a, line_count, codebook),
        cache_agrees(cache_b, line_count, codebook),
    ensures
        pseudonym(cache_a, line_count, Some(codebook), value) == pseudonym(
            cache_b,
            line_count,
            Some(codebook),
            value,
        ),
        pseudonym(cache_a, line_count, Some(codebook), value) == line_text(
            Some(codebook),
            line_index(digest_of(value) as int, line_count) as nat,
        ),
{
    lemma_cached_value_agrees(cache_a, line_count, codebook, digest_of(value));
    lemma_cached_value_agrees(cache_b, line_count, codebook, digest_of(value));
}

/// A word found in a cache that agrees with the codebook is the line that its
/// digest selects.
pub proof fn lemma_cached_value_agrees(
    cache: Seq<(u64, Seq<char>)>,
    line_count: int,
    codebook: Seq<u8>,
    digest: u64,
)
    requires
        cache_agrees(cache, line_count, codebook),
    ensures
        cached_value(cache, digest) is Some ==> line_text(
            Some(codebook),
            line_index(digest as int, line_count) as nat,
        ) == Ok::<Seq<char>, PseudonymizerError>(cached_value(cache, digest)->0),
{
    if cached_value(cache, digest) is Some {
        let i = choose|i: int| is_latest_match(cache, digest, i);
        assert(cache[i].0 == digest);
    }
}

/// A cache that agrees with the codebook still does after it takes in a line
/// read from that codebook.
pub proof fn lemma_fifo_push_agrees(
    cache: Seq<(u64, Seq<char>)>,
    capacity: nat,
    line_count: int,
    codebook: Seq<u8>,
    digest: u64,
    word: Seq<char>,
)
    requires
        cache_agrees(cache, line_count, codebook),
        line_text(Some(codebook), line_index(digest as int, line_count) as nat) == Ok::<
            Seq<char>,
            PseudonymizerError,
        >(word),
    ensures
        cache_agrees(fifo_push(cache, capacity, (digest, word)), line_count, codebook),
{
    let after = fifo_push(cache, capacity, (digest, word));
    assert forall|i: int| 0 <= i < after.len() implies line_text(
        Some(codebook),
        line_index((#[trigger] after[i]).0 as int, line_count) as nat,
    ) == Ok::<Seq<char>, PseudonymizerError>(after[i].1) by {
        if cache.len() >= capacity && cache.len() > 0 {
            if i < after.len() - 1 {
                assert(after[i] == cache[i + 1]);
            }
        } else {
            if i < after.len() - 1 {
                assert(after[i] == cache[i]);
            }
        }
    }
}

/// A codebook that holds a line at all holds the line that any digest
/// selects: as long as the codebook is the one that was counted, a lookup
/// never runs into its end.
pub proof fn lemma_selected_line_exists(codebook: Seq<u8>, digest: u64)
    requires
        newline_count(codebook) >= 1,
    ensures
        0 <= line_index(digest as int, newline_count(codebook) as int) < newline_count(codebook),
        line_at(codebook, line_index(digest as int, newline_count(codebook) as int) as nat)
            is Some,
{
    lemma_counted_line_exists(
        codebook,
        line_index(digest as int, newline_count(codebook) as int) as nat,
    );
}

} // verus!
