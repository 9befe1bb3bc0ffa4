//! The lines of a codebook: a text file with one candidate word per line,
//! read as bytes, whole or piece by piece.

use vstd::prelude::*;
use vstd::slice::slice_subrange;

verus! {

/// The line feed byte, which ends a line of a codebook.
pub const LF: u8 = 0x0a;

/// The carriage return byte, dropped where it stands before a line feed.
pub const CR: u8 = 0x0d;

/// Number of line feeds in `bytes`: the number of lines that a codebook is
/// counted to have.
pub open spec fn newline_count(bytes: Seq<u8>) -> nat
    decreases bytes.len(),
{
    if bytes.len() == 0 {
        0
    } else {
        newline_count(bytes.drop_last()) + if bytes.last() == LF {
            1nat
        } else {
            0nat
        }
    }
}

/// Index of the first line feed of `bytes` at or after `from`, or the length
/// of `bytes` where none follows.
pub open spec fn next_lf(bytes: Seq<u8>, from: int) -> int
    decreases bytes.len() - from,
{
    if from >= bytes.len() {
        bytes.len() as int
    } else if from >= 0 && bytes[from] == LF {
        from
    } else {
        next_lf(bytes, from + 1)
    }
}

/// Index at which line `n` of `bytes` begins, counting lines from zero: just
/// behind the `n`-th line feed. `None` where `bytes` has fewer line feeds.
pub open spec fn line_start(bytes: Seq<u8>, n: nat) -> Option<int>
    decreases n,
{
    if n == 0 {
        Some(0)
    } else {
        match line_start(bytes, (n - 1) as nat) {
            Some(start) => {
                let end = next_lf(bytes, start);
                if end < bytes.len() {
                    Some(end + 1)
                } else {
                    None
                }
            },
            None => None,
        }
    }
}

/// A line without the carriage return that stood before its line feed.
pub open spec fn strip_cr(line: Seq<u8>) -> Seq<u8> {
    if line.len() > 0 && line.last() == CR {
        line.drop_last()
    } else {
        line
    }
}

/// The bytes of line `n` of `bytes`, counting from zero, without its line
/// ending. A last line that no line feed ends counts where it is not empty,
/// and keeps a trailing carriage return. `None` where `bytes` ends before
/// line `n`.
pub open spec fn line_at(bytes: Seq<u8>, n: nat) -> Option<Seq<u8>> {
    match line_start(bytes, n) {
        Some(start) => {
            let end = next_lf(bytes, start);
            if start >= bytes.len() {
                None
            } else if end < bytes.len() {
                Some(strip_cr(bytes.subrange(start, end)))
            } else {
                Some(bytes.subrange(start, end))
            }
        },
        None => None,
    }
}

/// Whether line `n` of `bytes` is there in full: it begins within `bytes`,
/// and the line feed that ends it has been seen.
pub open spec fn line_is_terminated(bytes: Seq<u8>, n: nat) -> bool {
    match line_start(bytes, n) {
        Some(start) => next_lf(bytes, start) < bytes.len(),
        None => false,
    }
}

/// `next_lf` stays within the bytes and skips no line feed.
pub proof fn lemma_next_lf(bytes: Seq<u8>, from: int)
    requires
        0 <= from <= bytes.len(),
    ensures
        from <= next_lf(bytes, from) <= bytes.len(),
        next_lf(bytes, from) < bytes.len() ==> bytes[next_lf(bytes, from)] == LF,
        forall|k: int| from <= k < next_lf(bytes, from) ==> bytes[k] != LF,
    decreases bytes.len() - from,
{
    if from < bytes.len() && bytes[from] != LF {
        lemma_next_lf(bytes, from + 1);
    }
}

/// Where a line does not begin, no later line does.
pub proof fn lemma_line_start_none(bytes: Seq<u8>, n: nat, m: nat)
    requires
        line_start(bytes, n) is None,
        n <= m,
    ensures
        line_start(bytes, m) is None,
    decreases m,
{
    if n < m {
        lemma_line_start_none(bytes, n, (m - 1) as nat);
    }
}

/// A line begins within the bytes.
pub proof fn lemma_line_start_bounds(bytes: Seq<u8>, n: nat)
    ensures
        line_start(bytes, n) is Some ==> 0 <= line_start(bytes, n)->0 <= bytes.len(),
    decreases n,
{
    if n > 0 {
        lemma_line_start_bounds(bytes, (n - 1) as nat);
        if line_start(bytes, (n - 1) as nat) is Some {
            lemma_next_lf(bytes, line_start(bytes, (n - 1) as nat)->0);
        }
    }
}

/// A codebook holds no more line feeds than bytes.
pub proof fn lemma_newline_count_bound(bytes: Seq<u8>)
    ensures
        newline_count(bytes) <= bytes.len(),
    decreases bytes.len(),
{
    if bytes.len() > 0 {
        lemma_newline_count_bound(bytes.drop_last());
    }
}

/// Adding one byte to a prefix adds one to its line feeds where the byte is a
/// line feed.
proof fn lemma_newline_count_step(bytes: Seq<u8>, j: int)
    requires
        0 <= j < bytes.len(),
    ensures
        newline_count(bytes.take(j + 1)) == newline_count(bytes.take(j)) + if bytes[j] == LF {
            1nat
        } else {
            0nat
        },
{
    assert(bytes.take(j + 1).drop_last() =~= bytes.take(j));
}

/// A stretch without line feeds adds none to the count, and a longer prefix
/// holds no fewer.
proof fn lemma_newline_count_prefix(bytes: Seq<u8>, a: int, b: int)
    requires
        0 <= a <= b <= bytes.len(),
    ensures
        newline_count(bytes.take(a)) <= newline_count(bytes.take(b)),
        (forall|k: int| a <= k < b ==> bytes[k] != LF) ==> newline_count(bytes.take(a))
            == newline_count(bytes.take(b)),
    decreases b - a,
{
    if a < b {
        lemma_newline_count_prefix(bytes, a, b - 1);
        lemma_newline_count_step(bytes, b - 1);
    }
}

/// Line `n` begins behind exactly `n` line feeds.
proof fn lemma_line_start_count(bytes: Seq<u8>, n: nat)
    requires
        line_start(bytes, n) is Some,
    ensures
        0 <= line_start(bytes, n)->0 <= bytes.len(),
        newline_count(bytes.take(line_start(bytes, n)->0)) == n,
    decreases n,
{
    if n > 0 {
        let before = line_start(bytes, (n - 1) as nat)->0;
        lemma_line_start_count(bytes, (n - 1) as nat);
        lemma_next_lf(bytes, before);
        let end = next_lf(bytes, before);
        lemma_newline_count_prefix(bytes, before, end);
        lemma_newline_count_step(bytes, end);
    }
}

/// A codebook holds each of the lines that it was counted to have: a scan for
/// a line below the count never runs into the end.
pub proof fn lemma_counted_line_exists(bytes: Seq<u8>, n: nat)
    requires
        n < newline_count(bytes),
    ensures
        line_at(bytes, n) is Some,
    decreases n,
{
    assert(bytes.take(bytes.len() as int) =~= bytes);
    if n == 0 {
    } else {
        lemma_counted_line_exists(bytes, (n - 1) as nat);
        let before = line_start(bytes, (n - 1) as nat)->0;
        lemma_line_start_count(bytes, (n - 1) as nat);
        lemma_next_lf(bytes, before);
        let end = next_lf(bytes, before);
        lemma_newline_count_prefix(bytes, before, end);
        lemma_line_start_count(bytes, n);
        let start = line_start(bytes, n)->0;
        lemma_newline_count_prefix(bytes, start, bytes.len() as int);
    }
}

fn find_lf(bytes: &[u8], from: usize) -> (end: usize)
    requires
        from <= bytes@.len(),
    ensures
        end == next_lf(bytes@, from as int),
        from <= end <= bytes@.len(),
{
    let mut end: usize = from;
    while end < bytes.len() && bytes[end] != LF
        invariant
            from <= end <= bytes@.len(),
            next_lf(bytes@, from as int) == next_lf(bytes@, end as int),
        decreases bytes@.len() - end,
    {
        end += 1;
    }
    end
}

/// Scans `bytes` from the start, counting line feeds, and returns line `n`
/// without its line ending.
pub fn find_line(bytes: &[u8], n: u64) -> (line: Option<&[u8]>)
    ensures
        match line {
            Some(found) => line_at(bytes@, n as nat) == Some(found@),
            None => line_at(bytes@, n as nat) is None,
        },
{
    let len: usize = bytes.len();
    let mut start: usize = 0;
    let mut seen: u64 = 0;
    while seen < n
        invariant
            seen <= n,
            start <= len,
            len == bytes@.len(),
            line_start(bytes@, seen as nat) == Some(start as int),
        decreases n - seen,
    {
        let end = find_lf(bytes, start);
        if end >= len {
            proof {
                lemma_line_start_none(bytes@, (seen + 1) as nat, n as nat);
            }
            return None;
        }
        start = end + 1;
        seen += 1;
    }
    if start >= len {
        return None;
    }
    let end = find_lf(bytes, start);
    if end < len && end > start && bytes[end - 1] == CR {
        let found = slice_subrange(bytes, start, end - 1);
        assert(found@ =~= strip_cr(bytes@.subrange(start as int, end as int)));
        Some(found)
    } else {
        Some(slice_subrange(bytes, start, end))
    }
}

/// A byte behind a stretch without line feeds ends the stretch where it is a
/// line feed, and lengthens it where it is not.
proof fn lemma_next_lf_push_open(bytes: Seq<u8>, from: int, byte: u8)
    requires
        0 <= from <= bytes.len(),
        next_lf(bytes, from) == bytes.len(),
    ensures
        next_lf(bytes.push(byte), from) == if byte == LF {
            bytes.len() as int
        } else {
            bytes.len() as int + 1
        },
    decreases bytes.len() - from,
{
    if from < bytes.len() {
        assert(bytes.push(byte)[from] == bytes[from]);
        lemma_next_lf(bytes, from + 1);
        lemma_next_lf_push_open(bytes, from + 1, byte);
    } else {
        assert(bytes.push(byte)[from] == byte);
        assert(next_lf(bytes.push(byte), from + 1) == bytes.len() + 1);
    }
}

/// A line feed that was found stays the first one when more bytes follow.
proof fn lemma_next_lf_push_found(bytes: Seq<u8>, from: int, byte: u8)
    requires
        0 <= from,
        next_lf(bytes, from) < bytes.len(),
    ensures
        next_lf(bytes.push(byte), from) == next_lf(bytes, from),
    decreases bytes.len() - from,
{
    assert(bytes.push(byte)[from] == bytes[from]);
    if bytes[from] != LF {
        lemma_next_lf_push_found(bytes, from + 1, byte);
    }
}

/// A line that begins within the bytes begins at the same place when more
/// bytes follow.
proof fn lemma_line_start_push(bytes: Seq<u8>, n: nat, byte: u8)
    requires
        line_start(bytes, n) is Some,
    ensures
        line_start(bytes.push(byte), n) == line_start(bytes, n),
    decreases n,
{
    if n > 0 {
        lemma_line_start_push(bytes, (n - 1) as nat, byte);
        lemma_line_start_bounds(bytes, (n - 1) as nat);
        lemma_next_lf_push_found(bytes, line_start(bytes, (n - 1) as nat)->0, byte);
    }
}

/// A line that is there in full does not change when more bytes follow: a
/// scan may stop reading once it has seen the end of its line.
pub proof fn lemma_terminated_line_is_final(bytes: Seq<u8>, n: nat, rest: Seq<u8>)
    requires
        line_is_terminated(bytes, n),
    ensures
        line_is_terminated(bytes + rest, n),
        line_at(bytes + rest, n) == line_at(bytes, n),
    decreases rest.len(),
{
    if rest.len() == 0 {
        assert(bytes + rest =~= bytes);
    } else {
        let shorter = bytes + rest.drop_last();
        lemma_terminated_line_is_final(bytes, n, rest.drop_last());
        assert(bytes + rest =~= shorter.push(rest.last()));
        lemma_line_start_push(shorter, n, rest.last());
        lemma_line_start_bounds(shorter, n);
        let start = line_start(shorter, n)->0;
        lemma_next_lf(shorter, start);
        lemma_next_lf_push_found(shorter, start, rest.last());
        let end = next_lf(shorter, start);
        assert(shorter.push(rest.last()).subrange(start, end) =~= shorter.subrange(start, end));
    }
}

/// What a scan knows after the bytes `fed`, on its way to line `target`:
/// `seen` line feeds lie behind it, and `line` holds what it has of the line it
/// is after. `done` says that the line feed that ends that line was seen.
spec fn scan_agrees(target: u64, seen: u64, line: Seq<u8>, done: bool, fed: Seq<u8>) -> bool {
    &&& seen <= target
    &&& line_start(fed, seen as nat) is Some
    &&& {
        let start = line_start(fed, seen as nat)->0;
        if done {
            &&& seen == target
            &&& next_lf(fed, start) < fed.len()
            &&& line == fed.subrange(start, next_lf(fed, start))
        } else {
            &&& next_lf(fed, start) == fed.len()
            &&& line == if seen == target {
                fed.subrange(start, fed.len() as int)
            } else {
                Seq::<u8>::empty()
            }
        }
    }
}

/// One byte more keeps a scan in step with what was fed to it.
proof fn lemma_scan_step(target: u64, seen: u64, line: Seq<u8>, done: bool, fed: Seq<u8>, byte: u8)
    requires
        scan_agrees(target, seen, line, done, fed),
    ensures
        done ==> scan_agrees(target, seen, line, done, fed.push(byte)),
        !done && byte == LF && seen == target ==> scan_agrees(
            target,
            seen,
            line,
            true,
            fed.push(byte),
        ),
        !done && byte == LF && seen < target ==> scan_agrees(
            target,
            (seen + 1) as u64,
            line,
            false,
            fed.push(byte),
        ),
        !done && byte != LF && seen == target ==> scan_agrees(
            target,
            seen,
            line.push(byte),
            false,
            fed.push(byte),
        ),
        !done && byte != LF && seen < target ==> scan_agrees(
            target,
            seen,
            line,
            false,
            fed.push(byte),
        ),
{
    let start = line_start(fed, seen as nat)->0;
    let longer = fed.push(byte);
    lemma_line_start_bounds(fed, seen as nat);
    lemma_line_start_push(fed, seen as nat, byte);
    lemma_next_lf(fed, start);
    if done {
        lemma_next_lf_push_found(fed, start, byte);
        assert(longer.subrange(start, next_lf(fed, start)) =~= fed.subrange(
            start,
            next_lf(fed, start),
        ));
    } else {
        lemma_next_lf_push_open(fed, start, byte);
        if byte == LF {
            if seen == target {
                assert(longer.subrange(start, fed.len() as int) =~= fed.subrange(
                    start,
                    fed.len() as int,
                ));
            } else {
                assert(line_start(longer, (seen + 1) as nat) == Some(fed.len() as int + 1));
                assert(next_lf(longer, fed.len() as int + 1) == longer.len());
                assert(longer.subrange(fed.len() as int + 1, longer.len() as int) =~= Seq::<u8>::empty());
            }
        } else {
            if seen == target {
                assert(longer.subrange(start, longer.len() as int) =~= fed.subrange(
                    start,
                    fed.len() as int,
                ).push(byte));
            }
        }
    }
}

/// A scan that has its line in full stays in step whatever follows.
proof fn lemma_scan_rest(target: u64, seen: u64, line: Seq<u8>, fed: Seq<u8>, rest: Seq<u8>)
    requires
        scan_agrees(target, seen, line, true, fed),
    ensures
        scan_agrees(target, seen, line, true, fed + rest),
    decreases rest.len(),
{
    if rest.len() == 0 {
        assert(fed + rest =~= fed);
    } else {
        lemma_scan_rest(target, seen, line, fed, rest.drop_last());
        lemma_scan_step(target, seen, line, true, fed + rest.drop_last(), rest.last());
        assert(fed + rest =~= (fed + rest.drop_last()).push(rest.last()));
    }
}

/// A scan for one line of a codebook that arrives in pieces, so that the
/// codebook never has to be held in memory as a whole.
pub struct LineScan {
    target: u64,
    seen: u64,
    line: Vec<u8>,
    done: bool,
    fed: Ghost<Seq<u8>>,
}

impl LineScan {
    #[verifier::type_invariant]
    spec fn well_formed(self) -> bool {
        scan_agrees(self.target, self.seen, self.line@, self.done, self.fed@)
    }

    /// The line that the scan is after, counting from zero.
    pub closed spec fn target(&self) -> nat {
        self.target as nat
    }

    /// All the bytes that were fed to the scan, in order.
    pub closed spec fn fed(&self) -> Seq<u8> {
        self.fed@
    }

    /// A scan for line `target` that has seen nothing yet.
    pub fn new(target: u64) -> (scan: Self)
        ensures
            scan.target() == target,
            scan.fed() == Seq::<u8>::empty(),
    {
        let line: Vec<u8> = Vec::new();
        assert(line@ =~= Seq::<u8>::empty().subrange(0, 0));
        LineScan { target, seen: 0, line, done: false, fed: Ghost(Seq::empty()) }
    }

    /// Whether the scan has its line in full. What is fed after that changes
    /// nothing, so the reading may stop.
    pub fn is_done(&self) -> (done: bool)
        ensures
            done == line_is_terminated(self.fed(), self.target()),
    {
        proof {
            use_type_invariant(self);
            if !self.done && self.seen < self.target {
                lemma_line_start_none(self.fed@, (self.seen + 1) as nat, self.target as nat);
            }
        }
        self.done
    }

    /// Takes in the next piece of the codebook.
    pub fn feed(self, chunk: &[u8]) -> (scan: Self)
        ensures
            scan.target() == self.target(),
            scan.fed() == self.fed() + chunk@,
    {
        proof {
            use_type_invariant(&self);
        }
        let ghost before = self.fed@;
        let target = self.target;
        let mut seen: u64 = self.seen;
        let mut line = self.line;
        let mut done = self.done;
        let mut i: usize = 0;
        assert(before + chunk@.take(0) =~= before);
        while i < chunk.len() && !done
            invariant
                i <= chunk@.len(),
                scan_agrees(target, seen, line@, done, before + chunk@.take(i as int)),
            decreases chunk@.len() - i,
        {
            let byte = chunk[i];
            proof {
                lemma_scan_step(target, seen, line@, done, before + chunk@.take(i as int), byte);
                assert(before + chunk@.take(i + 1) =~= (before + chunk@.take(i as int)).push(byte));
            }
            if byte == LF {
                if seen == target {
                    done = true;
                } else {
                    seen += 1;
                }
            } else if seen == target {
                line.push(byte);
            }
            i += 1;
        }
        proof {
            assert(chunk@ =~= chunk@.take(i as int) + chunk@.skip(i as int));
            assert(before + chunk@ =~= (before + chunk@.take(i as int)) + chunk@.skip(i as int));
            if i < chunk@.len() {
                lemma_scan_rest(
                    target,
                    seen,
                    line@,
                    before + chunk@.take(i as int),
                    chunk@.skip(i as int),
                );
            } else {
                assert(chunk@.skip(i as int) =~= Seq::<u8>::empty());
                assert((before + chunk@.take(i as int)) + chunk@.skip(i as int) =~= before
                    + chunk@.take(i as int));
            }
        }
        LineScan { target, seen, line, done, fed: Ghost(before + chunk@) }
    }

    /// The line that the scan was after, without its line ending, once the
    /// codebook has been fed to it as far as it was read. `None` where the
    /// codebook ended before that line.
    pub fn finish(self) -> (line: Option<Vec<u8>>)
        ensures
            match line {
                Some(found) => line_at(self.fed(), self.target()) == Some(found@),
                None => line_at(self.fed(), self.target()) is None,
            },
    {
        proof {
            use_type_invariant(&self);
            lemma_line_start_bounds(self.fed@, self.seen as nat);
            if !self.done && self.seen < self.target {
                lemma_line_start_none(self.fed@, (self.seen + 1) as nat, self.target as nat);
            }
        }
        let mut line = self.line;
        if self.done {
            let len: usize = line.len();
            if len > 0 && line[len - 1] == CR {
                let ghost whole = line@;
                line.pop();
                assert(line@ =~= strip_cr(whole));
            }
            Some(line)
        } else if self.seen == self.target && line.len() > 0 {
            Some(line)
        } else {
            None
        }
    }

    /// The line that the scan is after, counting from zero.
    pub fn target_line(&self) -> (target: u64)
        ensures
            target == self.target(),
    {
        self.target
    }
}

} // verus!
