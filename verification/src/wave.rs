//! Waveform analytics: the down-sampling pass that turns a full recording
//! into a fixed-size visual summary, and the scatter pass that turns a sparse
//! recording buffer into dense tape contents.

use crate::sample::{sat_abs, sat_abs_spec, sat_add, sat_add_spec};
use crate::utils::{Input, SAMPLE_GRAPH_SIZE};
use vstd::prelude::*;

verus! {

/// Chunk width of the down-sampling pass. Cutting into `SAMPLE_GRAPH_SIZE + 1`
/// parts (rather than `SAMPLE_GRAPH_SIZE`) guarantees at least
/// `SAMPLE_GRAPH_SIZE` whole chunks of this width.
pub open spec fn chunk_size(len: nat) -> nat {
    len / ((SAMPLE_GRAPH_SIZE + 1) as nat)
}

/// Start of summary chunk `k`: the first chunk is one sample longer than the
/// others.
pub open spec fn chunk_start(size: nat, k: int) -> int {
    if k == 0 {
        0
    } else {
        k * size + 1
    }
}

/// End (exclusive) of summary chunk `k`.
pub open spec fn chunk_end(size: nat, k: int) -> int {
    (k + 1) * size + 1
}

/// Saturating sum of absolute sample values over `s[from .. to)`.
pub open spec fn abs_sum(s: Seq<i64>, from: int, to: int) -> int
    decreases to - from,
{
    if from >= to {
        0
    } else {
        sat_add_spec(abs_sum(s, from, to - 1), sat_abs_spec(s[to - 1] as int))
    }
}

/// Summary entry `k` of a recording: the saturating absolute sum over chunk
/// `k`, or the single absolute sample when the recording is so short that
/// chunks degenerate to single samples.
pub open spec fn graph_entry(s: Seq<i64>, k: int) -> int {
    let size = chunk_size(s.len());
    if size == 0 {
        sat_abs_spec(s[k] as int)
    } else {
        abs_sum(s, chunk_start(size, k), chunk_end(size, k))
    }
}

/// The fixed-size waveform summary of a recording.
pub open spec fn downsample_spec(s: Seq<i64>) -> Seq<i64> {
    Seq::new(SAMPLE_GRAPH_SIZE as nat, |k: int| graph_entry(s, k) as i64)
}

/// Every summary chunk ends within the recording, and reaches exactly one
/// chunk width past its start (one more for the first chunk).
proof fn lemma_chunk_end_in_bounds(len: nat, k: int)
    requires
        chunk_size(len) >= 1,
        0 <= k < SAMPLE_GRAPH_SIZE,
    ensures
        chunk_end(chunk_size(len), k) <= len,
        chunk_end(chunk_size(len), k) == chunk_start(chunk_size(len), k) + chunk_size(len) + (
        if k == 0 {
            1int
        } else {
            0int
        }),
{
    let size = chunk_size(len) as int;
    let parts = (SAMPLE_GRAPH_SIZE + 1) as int;
    vstd::arithmetic::div_mod::lemma_fundamental_div_mod(len as int, parts);
    vstd::arithmetic::div_mod::lemma_mod_bound(len as int, parts);
    assert(parts * size <= len);
    vstd::arithmetic::mul::lemma_mul_inequality(k + 1, SAMPLE_GRAPH_SIZE as int, size);
    assert(SAMPLE_GRAPH_SIZE as int * size + size == parts * size) by (nonlinear_arith)
        requires
            parts == SAMPLE_GRAPH_SIZE as int + 1,
    ;
    vstd::arithmetic::mul::lemma_mul_is_distributive_add_other_way(size, k, 1);
    vstd::arithmetic::mul::lemma_mul_basics(size);
}

/// Moving to the next summary chunk moves the start to the previous end.
proof fn lemma_chunk_step(size: nat, k: int)
    requires
        0 <= k,
    ensures
        chunk_start(size, k + 1) == chunk_end(size, k),
        chunk_end(size, k + 1) == chunk_end(size, k) + size,
{
    assert((k + 1) * size + 1 == k * size + 1 + size && (k + 2) * size + 1 == (k + 1) * size + 1
        + size) by (nonlinear_arith);
}

/// The fixed-size waveform summary of `audio`: entry `k` is the saturating
/// sum of absolute sample values over chunk `k` of the recording.
pub fn downsample(audio: &Vec<i64>) -> (r: Vec<i64>)
    requires
        audio@.len() >= SAMPLE_GRAPH_SIZE,
    ensures
        r@ == downsample_spec(audio@),
{
    let len: usize = audio.len();
    let size: usize = len / (SAMPLE_GRAPH_SIZE + 1);
    let mut r: Vec<i64> = Vec::new();
    let mut k: usize = 0;
    let mut start: usize = 0;
    while k < SAMPLE_GRAPH_SIZE
        invariant
            k <= SAMPLE_GRAPH_SIZE,
            len == audio@.len(),
            audio@.len() >= SAMPLE_GRAPH_SIZE,
            size as nat == chunk_size(audio@.len()),
            size >= 1 ==> start as int == chunk_start(size as nat, k as int),
            r@.len() == k,
            forall|j: int| 0 <= j < k ==> r@[j] as int == graph_entry(audio@, j),
        decreases SAMPLE_GRAPH_SIZE - k,
    {
        if size == 0 {
            r.push(sat_abs(audio[k]));
        } else {
            proof {
                lemma_chunk_end_in_bounds(audio@.len(), k as int);
            }
            let end: usize = start + size + (if k == 0 {
                1
            } else {
                0
            });
            proof {
                assert(end as int == chunk_end(size as nat, k as int));
            }
            let mut sum: i64 = 0;
            let mut j: usize = start;
            while j < end
                invariant
                    start <= j <= end,
                    end <= audio@.len(),
                    sum as int == abs_sum(audio@, start as int, j as int),
                decreases end - j,
            {
                sum = sat_add(sum, sat_abs(audio[j]));
                j = j + 1;
            }
            r.push(sum);
            proof {
                lemma_chunk_step(size as nat, k as int);
            }
            start = end;
        }
        k = k + 1;
    }
    proof {
        assert(r@ =~= downsample_spec(audio@));
    }
    r
}

/// The recording buffer scattered into a dense, zero-initialized buffer of
/// `len` samples: each pair writes its sample at its index, later pairs win.
pub open spec fn scatter_spec(entries: Seq<Input>, len: nat) -> Seq<i64>
    decreases entries.len(),
{
    if entries.len() == 0 {
        Seq::new(len, |i: int| 0i64)
    } else {
        let prev = scatter_spec(entries.drop_last(), len);
        let last = entries.last();
        if last.index < len {
            prev.update(last.index as int, last.sample)
        } else {
            prev
        }
    }
}

/// Scatter a sparse recording into dense tape contents of `len` samples.
pub fn scatter(entries: &Vec<Input>, len: usize) -> (r: Vec<i64>)
    requires
        forall|i: int| 0 <= i < entries@.len() ==> (#[trigger] entries@[i]).index < len,
    ensures
        r@ == scatter_spec(entries@, len as nat),
        r@.len() == len,
{
    let mut r: Vec<i64> = Vec::new();
    let mut i: usize = 0;
    while i < len
        invariant
            i <= len,
            r@ =~= Seq::new(i as nat, |j: int| 0i64),
        decreases len - i,
    {
        r.push(0);
        i = i + 1;
    }
    proof {
        assert(r@ =~= scatter_spec(entries@.take(0), len as nat));
    }
    let mut e: usize = 0;
    while e < entries.len()
        invariant
            e <= entries@.len(),
            forall|i: int| 0 <= i < entries@.len() ==> (#[trigger] entries@[i]).index < len,
            r@.len() == len,
            r@ == scatter_spec(entries@.take(e as int), len as nat),
        decreases entries@.len() - e,
    {
        let entry = entries[e];
        r.set(entry.index, entry.sample);
        proof {
            let t = entries@.take(e as int + 1);
            assert(t.drop_last() =~= entries@.take(e as int));
            assert(t.last() == entries@[e as int]);
        }
        e = e + 1;
    }
    proof {
        assert(entries@.take(entries@.len() as int) =~= entries@);
    }
    r
}

} // verus!
