//! The progress tracker: parses the transcoder's `key=value` progress
//! lines, converts the self-reported elapsed time into a phase-local
//! percentage, maps that into the caller's (offset, range) window of the
//! overall job, and throttles emission to at most one event per 100
//! milliseconds. The tracker is a pure state machine over (line, clock)
//! events; reading the process stream and taking the clock happen outside
//! the library.

use vstd::prelude::*;
use vstd::arithmetic::div_mod::lemma_div_is_ordered;

verus! {

/// An ASCII decimal digit byte.
pub open spec fn is_digit_byte(b: u8) -> bool {
    48 <= b <= 57
}

/// ASCII whitespace, as trimmed around the reported value.
pub open spec fn is_ws_byte(b: u8) -> bool {
    b == 32 || b == 9 || b == 10 || b == 13
}

/// Every byte is a decimal digit.
pub open spec fn all_digits(s: Seq<u8>) -> bool {
    forall|i: int| 0 <= i < s.len() ==> is_digit_byte(#[trigger] s[i])
}

/// The number the digit bytes denote.
pub open spec fn digits_val(s: Seq<u8>) -> int
    decreases s.len(),
{
    if s.len() == 0 {
        0
    } else {
        digits_val(s.drop_last()) * 10 + (s.last() - 48)
    }
}

/// Leading whitespace removed.
pub open spec fn trim_front(s: Seq<u8>) -> Seq<u8>
    decreases s.len(),
{
    if s.len() > 0 && is_ws_byte(s[0]) {
        trim_front(s.drop_first())
    } else {
        s
    }
}

/// Trailing whitespace removed.
pub open spec fn trim_back(s: Seq<u8>) -> Seq<u8>
    decreases s.len(),
{
    if s.len() > 0 && is_ws_byte(s.last()) {
        trim_back(s.drop_last())
    } else {
        s
    }
}

/// Whitespace removed from both ends.
pub open spec fn spec_trim(s: Seq<u8>) -> Seq<u8> {
    trim_back(trim_front(s))
}

/// An unsigned decimal number: non-empty, all digits, in range.
pub open spec fn spec_parse_u64(s: Seq<u8>) -> Option<int> {
    if s.len() > 0 && all_digits(s) && digits_val(s) <= u64::MAX {
        Some(digits_val(s))
    } else {
        None
    }
}

/// The microsecond timestamp key of the progress protocol.
pub open spec fn us_key() -> Seq<u8> {
    seq![
        'o' as u8,
        'u' as u8,
        't' as u8,
        '_' as u8,
        't' as u8,
        'i' as u8,
        'm' as u8,
        'e' as u8,
        '_' as u8,
        'u' as u8,
        's' as u8,
        '=' as u8,
    ]
}

/// The millisecond timestamp key of the progress protocol.
pub open spec fn ms_key() -> Seq<u8> {
    seq![
        'o' as u8,
        'u' as u8,
        't' as u8,
        '_' as u8,
        't' as u8,
        'i' as u8,
        'm' as u8,
        'e' as u8,
        '_' as u8,
        'm' as u8,
        's' as u8,
        '=' as u8,
    ]
}

/// The elapsed time a progress line reports, in microseconds: the value
/// after the microsecond key, or a thousand times the value after the
/// millisecond key; any other line reports nothing.
pub open spec fn line_elapsed_us(line: Seq<u8>) -> Option<int> {
    if line.len() >= 12 && line.subrange(0, 12) == us_key() {
        match spec_parse_u64(spec_trim(line.skip(12))) {
            Some(v) => Some(v),
            None => None,
        }
    } else if line.len() >= 12 && line.subrange(0, 12) == ms_key() {
        match spec_parse_u64(spec_trim(line.skip(12))) {
            Some(v) => Some(v * 1000),
            None => None,
        }
    } else {
        None
    }
}

/// Phase-local progress: the elapsed share of the known total, as a
/// whole percentage capped at 100; without a known total it stays 0. A
/// zero total reads as done, as dividing by it would.
pub open spec fn phase_progress(elapsed_us: int, total_ms: Option<u64>) -> int {
    match total_ms {
        Some(t) => if t == 0 {
            100
        } else if elapsed_us * 100 / (t * 1000) >= 100 {
            100
        } else {
            elapsed_us * 100 / (t * 1000)
        },
        None => 0,
    }
}

/// Overall progress: the phase's window offset plus its share of the
/// window range, capped at 100.
pub open spec fn overall_progress(offset: u32, range: u32, phase: int) -> int {
    if offset + phase * range / 100 >= 100 {
        100
    } else {
        offset + phase * range / 100
    }
}

/// Whether enough time has passed since the last emission.
pub open spec fn throttle_open(last_emit_ms: u64, now_ms: u64) -> bool {
    now_ms >= last_emit_ms && now_ms - last_emit_ms >= 100
}

/// Dropping leading whitespace is skipping up to the first non-blank.
proof fn lemma_trim_front_skip(s: Seq<u8>, k: int)
    requires
        0 <= k <= s.len(),
        forall|i: int| 0 <= i < k ==> is_ws_byte(#[trigger] s[i]),
        k == s.len() || !is_ws_byte(s[k]),
    ensures
        trim_front(s) == s.skip(k),
    decreases k,
{
    if k == 0 {
        assert(s.skip(0) =~= s);
    } else {
        lemma_trim_front_skip(s.drop_first(), k - 1);
        assert(s.drop_first().skip(k - 1) =~= s.skip(k));
    }
}

/// Dropping trailing whitespace is taking up to the last non-blank.
proof fn lemma_trim_back_take(s: Seq<u8>, m: int)
    requires
        0 <= m <= s.len(),
        forall|i: int| m <= i < s.len() ==> is_ws_byte(#[trigger] s[i]),
        m == 0 || !is_ws_byte(s[m - 1]),
    ensures
        trim_back(s) == s.take(m),
    decreases s.len(),
{
    if s.len() > m {
        lemma_trim_back_take(s.drop_last(), m);
        assert(s.drop_last().take(m) =~= s.take(m));
    } else {
        assert(s.take(m) =~= s);
    }
}

/// A prefix of a digit string denotes no more than the whole string.
proof fn lemma_digits_val_prefix_le(s: Seq<u8>, j: int)
    requires
        all_digits(s),
        0 <= j <= s.len(),
    ensures
        digits_val(s.take(j)) <= digits_val(s),
        digits_val(s) >= 0,
    decreases s.len() - j,
{
    if j == s.len() {
        assert(s.take(j) =~= s);
        lemma_digits_val_nonneg(s);
    } else {
        assert(s.take(j + 1).drop_last() =~= s.take(j));
        assert(digits_val(s.take(j + 1)) == digits_val(s.take(j)) * 10 + (s[j] - 48));
        lemma_digits_val_prefix_le(s, j + 1);
        assert(all_digits(s.take(j)));
        lemma_digits_val_nonneg(s.take(j));
    }
}

/// A digit string denotes a number.
proof fn lemma_digits_val_nonneg(s: Seq<u8>)
    requires
        all_digits(s),
    ensures
        digits_val(s) >= 0,
    decreases s.len(),
{
    if s.len() > 0 {
        assert(all_digits(s.drop_last()));
        lemma_digits_val_nonneg(s.drop_last());
    }
}

/// Parse the decimal field in `line[lo..hi]`, which the caller has
/// trimmed; fails on an empty field, a non-digit, or a value over the
/// unsigned 64-bit range.
fn parse_u64_field(line: &[u8], lo: usize, hi: usize) -> (r: Option<u64>)
    requires
        lo <= hi <= line@.len(),
    ensures
        ({
            let w = line@.subrange(lo as int, hi as int);
            match r {
                Some(v) => spec_parse_u64(w) == Some(v as int),
                None => spec_parse_u64(w) is None,
            }
        }),
{
    let ghost w = line@.subrange(lo as int, hi as int);
    if lo == hi {
        return None;
    }
    let mut acc: u128 = 0;
    let mut i: usize = lo;
    while i < hi
        invariant
            lo <= i <= hi <= line@.len(),
            w == line@.subrange(lo as int, hi as int),
            acc as int == digits_val(w.take(i - lo)),
            acc <= u64::MAX,
            all_digits(w.take(i - lo)),
        decreases hi - i,
    {
        let b = line[i];
        if b < 48 || b > 57 {
            proof {
                assert(w[i - lo] == line@[i as int]);
                assert(!is_digit_byte(w[i - lo]));
            }
            return None;
        }
        let d = (b - 48) as u128;
        proof {
            assert(w.take(i + 1 - lo).drop_last() =~= w.take(i - lo));
            assert(w[i - lo] == line@[i as int]);
        }
        acc = acc * 10 + d;
        i = i + 1;
        if acc > u64::MAX as u128 {
            proof {
                let j = i - lo;
                assert(digits_val(w.take(j as int)) == acc as int);
                if all_digits(w) {
                    lemma_digits_val_prefix_le(w, j as int);
                    assert(digits_val(w) > u64::MAX);
                }
            }
            return None;
        }
    }
    proof {
        assert(w.take(hi - lo) =~= w);
    }
    Some(acc as u64)
}

/// Locate the trimmed field after the 12-byte key: the indices around
/// the bytes with surrounding whitespace dropped.
fn trim_bounds(line: &[u8]) -> (r: (usize, usize))
    requires
        line@.len() >= 12,
    ensures
        12 <= r.0 <= r.1 <= line@.len(),
        line@.subrange(r.0 as int, r.1 as int) == spec_trim(line@.skip(12)),
{
    let n = line.len();
    let mut lo: usize = 12;
    while lo < n && (line[lo] == 32 || line[lo] == 9 || line[lo] == 10 || line[lo] == 13)
        invariant
            12 <= lo <= n,
            n == line@.len(),
            forall|i: int| 12 <= i < lo ==> is_ws_byte(#[trigger] line@[i]),
        decreases n - lo,
    {
        lo = lo + 1;
    }
    let mut hi: usize = n;
    while hi > lo && (line[hi - 1] == 32 || line[hi - 1] == 9 || line[hi - 1] == 10 || line[hi - 1]
        == 13)
        invariant
            lo <= hi <= n,
            n == line@.len(),
            forall|i: int| hi <= i < n ==> is_ws_byte(#[trigger] line@[i]),
        decreases hi,
    {
        hi = hi - 1;
    }
    proof {
        let rest = line@.skip(12);
        lemma_trim_front_skip(rest, lo - 12);
        assert(trim_front(rest) =~= line@.subrange(lo as int, n as int));
        let front = line@.subrange(lo as int, n as int);
        if hi == lo {
            lemma_trim_back_take(front, 0);
        } else {
            lemma_trim_back_take(front, hi - lo);
        }
        assert(trim_back(front) =~= line@.subrange(lo as int, hi as int));
    }
    (lo, hi)
}

/// Parse one progress line into the elapsed time it reports, in
/// microseconds; lines with other keys, malformed values, or values out
/// of range report nothing. The microsecond key is preferred by being
/// checked first; both keys never match one line.
pub fn parse_progress_line(line: &[u8]) -> (r: Option<u128>)
    ensures
        match r {
            Some(e) => line_elapsed_us(line@) == Some(e as int) && e <= u64::MAX as u128 * 1000,
            None => line_elapsed_us(line@) is None,
        },
{
    if line.len() < 12 {
        return None;
    }
    let common = line[0] == 'o' as u8 && line[1] == 'u' as u8 && line[2] == 't' as u8 && line[3]
        == '_' as u8 && line[4] == 't' as u8 && line[5] == 'i' as u8 && line[6] == 'm' as u8
        && line[7] == 'e' as u8 && line[8] == '_' as u8 && line[10] == 's' as u8 && line[11]
        == '=' as u8;
    let is_us = common && line[9] == 'u' as u8;
    let is_ms = common && line[9] == 'm' as u8;
    proof {
        if is_us {
            assert(line@.subrange(0, 12) =~= us_key());
        } else {
            assert(line@.subrange(0, 12) !~= us_key());
        }
        if is_ms {
            assert(line@.subrange(0, 12) =~= ms_key());
        } else {
            assert(line@.subrange(0, 12) !~= ms_key());
        }
    }
    if is_us {
        let (lo, hi) = trim_bounds(line);
        match parse_u64_field(line, lo, hi) {
            Some(v) => Some(v as u128),
            None => None,
        }
    } else if is_ms {
        let (lo, hi) = trim_bounds(line);
        match parse_u64_field(line, lo, hi) {
            Some(v) => Some(v as u128 * 1000),
            None => None,
        }
    } else {
        None
    }
}

/// Tracker state for one phase: its window in the overall job, the known
/// total duration if any, and the time of the last emission.
pub struct ProgressTracker {
    pub offset: u32,
    pub range: u32,
    pub total_ms: Option<u64>,
    pub last_emit_ms: u64,
}

impl ProgressTracker {
    /// A tracker for one phase. `start_ms` is the clock reading at
    /// creation: the first emission waits out a full throttle interval
    /// from there.
    pub fn new(offset: u32, range: u32, total_ms: Option<u64>, start_ms: u64) -> (r: Self)
        ensures
            r.offset == offset,
            r.range == range,
            r.total_ms == total_ms,
            r.last_emit_ms == start_ms,
    {
        ProgressTracker { offset, range, total_ms, last_emit_ms: start_ms }
    }

    /// Feed one line of the process's progress stream at clock reading
    /// `now_ms`. Emits the overall percentage exactly when the line
    /// reports an elapsed time and at least 100 ms have passed since the
    /// last emission; emission advances the throttle clock, anything
    /// else leaves the tracker unchanged.
    pub fn on_line(&mut self, line: &[u8], now_ms: u64) -> (r: Option<u32>)
        ensures
            match line_elapsed_us(line@) {
                Some(e) => if throttle_open(old(self).last_emit_ms, now_ms) {
                    &&& r == Some(
                        overall_progress(
                            old(self).offset,
                            old(self).range,
                            phase_progress(e, old(self).total_ms),
                        ) as u32,
                    )
                    &&& final(self).last_emit_ms == now_ms
                    &&& final(self).offset == old(self).offset
                    &&& final(self).range == old(self).range
                    &&& final(self).total_ms == old(self).total_ms
                } else {
                    r is None && *final(self) == *old(self)
                },
                None => r is None && *final(self) == *old(self),
            },
            r is Some ==> r->0 <= 100,
    {
        match parse_progress_line(line) {
            None => None,
            Some(elapsed) => {
                if now_ms >= self.last_emit_ms && now_ms - self.last_emit_ms >= 100 {
                    self.last_emit_ms = now_ms;
                    let p = Self::compute_phase(elapsed, self.total_ms);
                    let o = Self::compute_overall(self.offset, self.range, p);
                    Some(o)
                } else {
                    None
                }
            },
        }
    }

    /// Phase-local percentage from the elapsed and total time.
    fn compute_phase(elapsed_us: u128, total_ms: Option<u64>) -> (p: u32)
        requires
            elapsed_us <= u64::MAX as u128 * 1000,
        ensures
            p as int == phase_progress(elapsed_us as int, total_ms),
            p <= 100,
    {
        match total_ms {
            None => 0,
            Some(t) => {
                if t == 0 {
                    100
                } else {
                    let v = elapsed_us * 100 / (t as u128 * 1000);
                    if v >= 100 {
                        100
                    } else {
                        v as u32
                    }
                }
            },
        }
    }

    /// Overall percentage from the window and the phase percentage.
    fn compute_overall(offset: u32, range: u32, p: u32) -> (o: u32)
        requires
            p <= 100,
        ensures
            o as int == overall_progress(offset, range, p as int),
            o <= 100,
    {
        proof {
            assert(p as u64 * range as u64 <= 100 * 0xffff_ffffu64) by (nonlinear_arith)
                requires
                    p <= 100,
                    range <= 0xffff_ffffu32,
            ;
        }
        let share = (p as u64 * range as u64) / 100;
        let total = offset as u64 + share;
        if total >= 100 {
            100
        } else {
            total as u32
        }
    }
}

/// Phase progress never moves backwards as the reported time advances.
pub proof fn lemma_phase_progress_monotone(e1: int, e2: int, total_ms: Option<u64>)
    requires
        0 <= e1 <= e2,
    ensures
        phase_progress(e1, total_ms) <= phase_progress(e2, total_ms),
{
    if total_ms is Some && total_ms->0 != 0 {
        let t = total_ms->0 as int;
        lemma_div_is_ordered(e1 * 100, e2 * 100, t * 1000);
    }
}

/// Overall progress never moves backwards as phase progress advances,
/// and always stays within the window's reach.
pub proof fn lemma_overall_monotone(offset: u32, range: u32, p1: int, p2: int)
    requires
        0 <= p1 <= p2,
    ensures
        overall_progress(offset, range, p1) <= overall_progress(offset, range, p2),
{
    assert(p1 * range <= p2 * range) by (nonlinear_arith)
        requires
            0 <= p1 <= p2,
            range >= 0,
    ;
    lemma_div_is_ordered(p1 * range, p2 * range, 100);
}

/// Overall progress stays between the window's offset and its end,
/// capped at 100.
pub proof fn lemma_overall_bounds(offset: u32, range: u32, p: int)
    requires
        0 <= p <= 100,
    ensures
        overall_progress(offset, range, p) <= 100,
        overall_progress(offset, range, p) >= (if offset > 100 {
            100int
        } else {
            offset as int
        }),
        offset + range <= 100 ==> overall_progress(offset, range, p) <= offset + range,
{
    assert(p * range <= 100 * range) by (nonlinear_arith)
        requires
            0 <= p <= 100,
            range >= 0,
    ;
    lemma_div_is_ordered(0, p * range, 100);
    lemma_div_is_ordered(p * range, 100 * range, 100);
    assert(100 * range / 100 == range) by (nonlinear_arith);
}

} // verus!
