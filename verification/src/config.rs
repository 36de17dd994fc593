//! Startup configuration: tempo and bar count, taken once from the command
//! line, and the tape length they determine.

use vstd::prelude::*;

verus! {

pub const DEFAULT_BPM: u16 = 120;

pub const DEFAULT_BAR_COUNT: usize = 4;

/// Whether `s` is a plain decimal numeral: at least one character, digits
/// only.
pub open spec fn is_numeral(s: Seq<char>) -> bool {
    s.len() >= 1 && forall|i: int|
        0 <= i < s.len() ==> '0' as u32 <= (#[trigger] s[i]) as u32 <= '9' as u32
}

/// The value of a decimal numeral.
pub open spec fn numeral_value(s: Seq<char>) -> int
    decreases s.len(),
{
    if s.len() == 0 {
        0
    } else {
        numeral_value(s.drop_last()) * 10 + (s.last() as u32 - '0' as u32)
    }
}

proof fn lemma_numeral_nonneg(s: Seq<char>)
    requires
        forall|i: int| 0 <= i < s.len() ==> '0' as u32 <= (#[trigger] s[i]) as u32 <= '9' as u32,
    ensures
        numeral_value(s) >= 0,
    decreases s.len(),
{
    if s.len() > 0 {
        lemma_numeral_nonneg(s.drop_last());
    }
}

/// A longer numeral is worth at least its prefix.
proof fn lemma_numeral_prefix_le(s: Seq<char>, i: int)
    requires
        forall|j: int| 0 <= j < s.len() ==> '0' as u32 <= (#[trigger] s[j]) as u32 <= '9' as u32,
        0 <= i <= s.len(),
    ensures
        numeral_value(s.take(i)) <= numeral_value(s),
    decreases s.len() - i,
{
    if i < s.len() {
        let t = s.take(i + 1);
        assert(t.drop_last() =~= s.take(i));
        lemma_numeral_nonneg(s.take(i));
        lemma_numeral_prefix_le(s, i + 1);
    } else {
        assert(s.take(i) =~= s);
    }
}

/// Parse a decimal numeral worth at most `max`, rejecting anything else:
/// empty input, any non-digit, or a value past `max`.
pub fn parse_number(s: &str, max: u64) -> (r: Option<u64>)
    ensures
        r is Some <==> is_numeral(s@) && numeral_value(s@) <= max,
        r is Some ==> r->0 as int == numeral_value(s@),
{
    let len = s.unicode_len();
    if len == 0 {
        return None;
    }
    let mut acc: u64 = 0;
    let mut i: usize = 0;
    while i < len
        invariant
            0 < len == s@.len(),
            0 <= i <= len,
            forall|j: int|
                0 <= j < i ==> '0' as u32 <= (#[trigger] s@[j]) as u32 <= '9' as u32,
            acc as int == numeral_value(s@.take(i as int)),
            acc <= max,
        decreases len - i,
    {
        let c = s.get_char(i);
        let code = c as u32;
        if code < 48 || code > 57 {
            return None;
        }
        let digit = (code - 48) as u64;
        proof {
            let t = s@.take(i as int + 1);
            assert(t.drop_last() =~= s@.take(i as int));
            assert(t.last() == s@[i as int]);
        }
        let wide: u128 = (acc as u128) * 10 + (digit as u128);
        if wide > max as u128 {
            proof {
                if is_numeral(s@) {
                    lemma_numeral_prefix_le(s@, i as int + 1);
                }
            }
            return None;
        }
        acc = wide as u64;
        i = i + 1;
    }
    proof {
        assert(s@.take(len as int) =~= s@);
    }
    Some(acc)
}

/// Tempo and bar count, fixed once at startup; they size the tapes.
pub struct Config {
    pub bpm: u16,
    pub bar_count: usize,
}

impl Config {
    /// The configuration read from the command line: exactly two arguments
    /// after the program name — tempo in beats per minute, then bar count —
    /// set the fields when both are in-range numerals; any other argument
    /// list falls back to the defaults of 120 beats per minute and 4 bars.
    pub fn new(args: Vec<String>) -> (c: Config)
        ensures
            (args@.len() == 3 && is_numeral(args@[1]@) && numeral_value(args@[1]@) <= u16::MAX
                && is_numeral(args@[2]@) && numeral_value(args@[2]@) <= usize::MAX) ==> c.bpm
                as int == numeral_value(args@[1]@) && c.bar_count as int == numeral_value(
                args@[2]@,
            ),
            !(args@.len() == 3 && is_numeral(args@[1]@) && numeral_value(args@[1]@) <= u16::MAX
                && is_numeral(args@[2]@) && numeral_value(args@[2]@) <= usize::MAX) ==> c.bpm
                == DEFAULT_BPM && c.bar_count == DEFAULT_BAR_COUNT,
    {
        if args.len() == 3 {
            let bpm = parse_number(args[1].as_str(), u16::MAX as u64);
            let bar_count = parse_number(args[2].as_str(), usize::MAX as u64);
            match (bpm, bar_count) {
                (Some(bpm), Some(bar_count)) => Config {
                    bpm: bpm as u16,
                    bar_count: bar_count as usize,
                },
                _ => Config { bpm: DEFAULT_BPM, bar_count: DEFAULT_BAR_COUNT },
            }
        } else {
            Config { bpm: DEFAULT_BPM, bar_count: DEFAULT_BAR_COUNT }
        }
    }
}

/// The raw tape length for a configuration, in samples: sample rate ×
/// channel count × bar length × bar count, where a bar is four beats of
/// `60 / bpm` seconds each.
pub open spec fn raw_tape_length(
    sample_rate: u32,
    channel_count: u16,
    bpm: u16,
    bar_count: usize,
) -> int {
    sample_rate as int * channel_count as int * 240 * bar_count as int / bpm as int
}

/// The tape length for a configuration: the raw length rounded down to a
/// whole multiple of the channel count, so that every tape position belongs
/// to a complete frame.
pub fn tape_length_for(sample_rate: u32, channel_count: u16, bpm: u16, bar_count: usize) -> (r:
    usize)
    requires
        bpm >= 1,
        channel_count >= 1,
        raw_tape_length(sample_rate, channel_count, bpm, bar_count) <= usize::MAX,
    ensures
        r as int == raw_tape_length(sample_rate, channel_count, bpm, bar_count)
            - raw_tape_length(sample_rate, channel_count, bpm, bar_count) % (
        channel_count as int),
        r as int % (channel_count as int) == 0,
        r as int <= raw_tape_length(sample_rate, channel_count, bpm, bar_count),
{
    proof {
        let b1: int = 0xffff_ffff;
        let b2: int = 0xffff;
        let b3: int = 0xffff_ffff_ffff_ffff;
        vstd::arithmetic::mul::lemma_mul_nonnegative(sample_rate as int, channel_count as int);
        vstd::arithmetic::mul::lemma_mul_nonnegative(
            sample_rate as int * channel_count as int * 240,
            bar_count as int,
        );
        vstd::arithmetic::mul::lemma_mul_upper_bound(
            sample_rate as int,
            b1,
            channel_count as int,
            b2,
        );
        vstd::arithmetic::mul::lemma_mul_upper_bound(
            sample_rate as int * channel_count as int,
            b1 * b2,
            240,
            240,
        );
        vstd::arithmetic::mul::lemma_mul_upper_bound(
            sample_rate as int * channel_count as int * 240,
            b1 * b2 * 240,
            bar_count as int,
            b3,
        );
    }
    let raw: u128 = (sample_rate as u128) * (channel_count as u128) * 240 * (bar_count as u128) / (
    bpm as u128);
    proof {
        let raw_i = raw_tape_length(sample_rate, channel_count, bpm, bar_count);
        vstd::arithmetic::div_mod::lemma_mod_bound(raw_i, channel_count as int);
        vstd::arithmetic::div_mod::lemma_mod_decreases(raw_i as nat, channel_count as nat);
        vstd::arithmetic::div_mod::lemma_fundamental_div_mod(raw_i, channel_count as int);
        vstd::arithmetic::div_mod::lemma_mod_multiples_basic(
            raw_i / (channel_count as int),
            channel_count as int,
        );
        assert((channel_count as int) * (raw_i / (channel_count as int)) == (raw_i / (
        channel_count as int)) * (channel_count as int)) by (nonlinear_arith);
    }
    let remainder: u128 = raw % (channel_count as u128);
    let aligned: u128 = raw - remainder;
    aligned as usize
}

} // verus!
