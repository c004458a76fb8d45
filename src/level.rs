use vstd::prelude::*;

verus! {

/// Largest magnitude of a signed 16-bit sample: integer samples are normalized by it.
pub const I16_FULL_SCALE: u64 = 32767;

/// Sum of a sequence of samples.
pub open spec fn sample_sum(s: Seq<i16>) -> int
    decreases s.len(),
{
    if s.len() == 0 {
        0
    } else {
        sample_sum(s.drop_last()) + s.last() as int
    }
}

/// Sum of the samples of frame `f` of an interleaved buffer with `c` channels.
pub open spec fn frame_sum(s: Seq<i16>, c: nat, f: int) -> int {
    sample_sum(s.subrange(f * c, f * c + c))
}

/// Number of whole frames in an interleaved buffer; a trailing partial frame is ignored.
pub open spec fn frame_total(s: Seq<i16>, c: nat) -> nat {
    if c == 0 {
        0
    } else {
        s.len() / c
    }
}

/// Per-frame channel sums: frame `f` stands for the mono value `sums[f] / (c * full scale)`.
pub open spec fn frame_sums_of(s: Seq<i16>, c: nat) -> Seq<int> {
    Seq::new(frame_total(s, c), |f: int| frame_sum(s, c, f))
}

/// Sum of squares of a sequence of integers.
pub open spec fn sum_of_squares(m: Seq<int>) -> int
    decreases m.len(),
{
    if m.len() == 0 {
        0
    } else {
        sum_of_squares(m.drop_last()) + m.last() * m.last()
    }
}

pub open spec fn abs(x: int) -> int {
    if x < 0 {
        -x
    } else {
        x
    }
}

/// Largest magnitude in a sequence of integers (0 when empty).
pub open spec fn peak_of(m: Seq<int>) -> int
    decreases m.len(),
{
    if m.len() == 0 {
        0
    } else if abs(m.last()) > peak_of(m.drop_last()) {
        abs(m.last())
    } else {
        peak_of(m.drop_last())
    }
}

/// Exact level metrics of one batch, all over the common denominator `full_scale`:
/// RMS is `sqrt(sum_squares / frames) / full_scale`, peak is `peak_abs / full_scale`,
/// and dB is `20 * log10(max(RMS, 1e-12))`.
#[derive(Clone, Copy, Debug, PartialEq, Eq)]
pub struct LevelStats {
    pub sum_squares: u128,
    pub peak_abs: u64,
    pub frames: u64,
    pub full_scale: u64,
}

pub proof fn lemma_sum_bound(s: Seq<i16>)
    ensures
        -32768 * s.len() <= sample_sum(s) <= 32767 * s.len(),
    decreases s.len(),
{
    if s.len() > 0 {
        lemma_sum_bound(s.drop_last());
    }
}

pub proof fn lemma_sum_push(s: Seq<i16>, a: int, b: int)
    requires
        0 <= a <= b < s.len(),
    ensures
        sample_sum(s.subrange(a, b + 1)) == sample_sum(s.subrange(a, b)) + s[b] as int,
{
    assert(s.subrange(a, b + 1).drop_last() =~= s.subrange(a, b));
}

pub proof fn lemma_frame_in_bounds(len: int, c: int, f: int)
    requires
        c > 0,
        len >= 0,
        0 <= f < len / c,
    ensures
        0 <= f * c,
        f * c + c <= len,
{
    assert(f + 1 <= len / c);
    assert((f + 1) * c <= (len / c) * c) by (nonlinear_arith)
        requires
            f + 1 <= len / c,
            c > 0,
    ;
    assert((len / c) * c <= len) by (nonlinear_arith)
        requires
            c > 0,
            len >= 0,
    ;
    assert(0 <= f * c) by (nonlinear_arith)
        requires
            f >= 0,
            c > 0,
    ;
    assert((f + 1) * c == f * c + c) by (nonlinear_arith);
}

/// Sums the channels of each whole frame of an interleaved buffer.
pub fn frame_sums(input: &[i16], channels: u16) -> (r: Vec<i32>)
    requires
        channels > 0,
    ensures
        r@.len() == frame_total(input@, channels as nat),
        forall|f: int| 0 <= f < r@.len() ==> r@[f] as int == #[trigger] frame_sums_of(input@, channels as nat)[f],
{
    let c = channels as usize;
    let frames = input.len() / c;
    let mut r: Vec<i32> = Vec::with_capacity(frames);
    let mut f: usize = 0;
    while f < frames
        invariant
            c == channels as usize,
            c > 0,
            frames == input@.len() / (c as nat),
            input@.len() <= usize::MAX,
            f <= frames,
            r@.len() == f,
            forall|g: int| 0 <= g < f ==> r@[g] as int == #[trigger] frame_sums_of(input@, channels as nat)[g],
        decreases frames - f,
    {
        proof {
            lemma_frame_in_bounds(input@.len() as int, c as int, f as int);
        }
        let base = f * c;
        let mut acc: i32 = 0;
        let mut j: usize = 0;
        while j < c
            invariant
                c == channels as usize,
                c > 0,
                c <= 65535,
                base == f * c,
                base + c <= input@.len(),
                input@.len() <= usize::MAX,
                j <= c,
                acc as int == sample_sum(input@.subrange(base as int, base + j)),
            decreases c - j,
        {
            proof {
                lemma_sum_push(input@, base as int, (base + j) as int);
                lemma_sum_bound(input@.subrange(base as int, base + j + 1));
                assert(input@.subrange(base as int, base + j + 1).len() == j + 1);
            }
            acc = acc + input[base + j] as i32;
            j = j + 1;
        }
        r.push(acc);
        f = f + 1;
    }
    r
}

/// Level metrics of a batch of per-frame channel sums taken over `channels` channels.
pub fn level_of(sums: &Vec<i32>, channels: u16) -> (st: LevelStats)
    requires
        channels > 0,
    ensures
        st.sum_squares == sum_of_squares(sums@.map_values(|v: i32| v as int)),
        st.peak_abs == peak_of(sums@.map_values(|v: i32| v as int)),
        st.frames == sums@.len(),
        st.full_scale == channels * I16_FULL_SCALE,
{
    let ghost m = sums@.map_values(|v: i32| v as int);
    let mut sq: u128 = 0;
    let mut peak: u64 = 0;
    let mut i: usize = 0;
    while i < sums.len()
        invariant
            m == sums@.map_values(|v: i32| v as int),
            i <= sums@.len(),
            channels > 0,
            sq == sum_of_squares(m.subrange(0, i as int)),
            sq <= i * 0x1_0000_0000_0000_0000,
            peak == peak_of(m.subrange(0, i as int)),
        decreases sums@.len() - i,
    {
        let v = sums[i] as i64;
        let a: u64 = if v < 0 { (-v) as u64 } else { v as u64 };
        proof {
            assert(m.subrange(0, i + 1).drop_last() =~= m.subrange(0, i as int));
            assert(m.subrange(0, i + 1).last() == v as int);
            assert(a * a == (v as int) * (v as int)) by (nonlinear_arith)
                requires
                    a == abs(v as int),
            ;
            assert(a * a <= 0x1_0000_0000_0000_0000) by (nonlinear_arith)
                requires
                    a <= 0x8000_0000,
            ;
        }
        sq = sq + (a as u128) * (a as u128);
        if a > peak {
            peak = a;
        }
        i = i + 1;
    }
    proof {
        assert(m.subrange(0, sums@.len() as int) =~= m);
    }
    LevelStats { sum_squares: sq, peak_abs: peak, frames: sums.len() as u64, full_scale: channels as u64 * I16_FULL_SCALE }
}

proof fn lemma_sum_of_zeros(s: Seq<i16>)
    requires
        forall|i: int| 0 <= i < s.len() ==> s[i] == 0,
    ensures
        sample_sum(s) == 0,
    decreases s.len(),
{
    if s.len() > 0 {
        lemma_sum_of_zeros(s.drop_last());
    }
}

/// With one channel, the frame sums are the samples themselves.
pub proof fn lemma_mono_frame_sums(s: Seq<i16>)
    ensures
        frame_sums_of(s, 1) =~= s.map_values(|x: i16| x as int),
{
    assert forall|f: int| 0 <= f < s.len() implies #[trigger] frame_sums_of(s, 1)[f] == s[f] as int by {
        assert(f * 1 == f);
        assert(frame_total(s, 1) == s.len());
        let sub = s.subrange(f, f + 1);
        assert(sub.drop_last() =~= Seq::<i16>::empty());
        assert(sample_sum(sub.drop_last()) == 0);
        assert(sample_sum(sub) == sample_sum(sub.drop_last()) + sub.last() as int);
    }
}

proof fn lemma_constant_magnitude(m: Seq<int>, k: int)
    requires
        k >= 0,
        forall|i: int| 0 <= i < m.len() ==> abs(#[trigger] m[i]) == k,
    ensures
        sum_of_squares(m) == m.len() * (k * k),
        peak_of(m) == if m.len() == 0 {
            0
        } else {
            k
        },
    decreases m.len(),
{
    if m.len() > 0 {
        let p = m.drop_last();
        lemma_constant_magnitude(p, k);
        assert(abs(m[m.len() - 1]) == k);
        assert(m.last() * m.last() == k * k) by (nonlinear_arith)
            requires
                abs(m.last()) == k,
        ;
        assert(m.len() * (k * k) == p.len() * (k * k) + k * k) by (nonlinear_arith)
            requires
                m.len() == p.len() + 1,
        ;
    }
}

/// A silent batch, whatever its channel count, has zero energy and zero peak: its RMS is 0
/// and its dB value is the floor `20 * log10(1e-12)`.
pub proof fn lemma_silence_has_no_level(s: Seq<i16>, c: nat)
    requires
        0 < c <= 65535,
        forall|i: int| 0 <= i < s.len() ==> s[i] == 0,
    ensures
        sum_of_squares(frame_sums_of(s, c)) == 0,
        peak_of(frame_sums_of(s, c)) == 0,
{
    let m = frame_sums_of(s, c);
    assert forall|f: int| 0 <= f < m.len() implies abs(#[trigger] m[f]) == 0 by {
        lemma_frame_in_bounds(s.len() as int, c as int, f);
        lemma_sum_of_zeros(s.subrange(f * c, f * c + c));
    }
    lemma_constant_magnitude(m, 0);
}

/// A mono square wave at full scale (every sample at plus or minus the 16-bit maximum) has
/// mean square equal to the squared full scale and peak equal to the full scale: its RMS and
/// its peak are both 1.
pub proof fn lemma_full_scale_square_wave(s: Seq<i16>)
    requires
        s.len() > 0,
        forall|i: int| 0 <= i < s.len() ==> s[i] == 32767 || s[i] == -32767,
    ensures
        sum_of_squares(frame_sums_of(s, 1)) == frame_total(s, 1) * (I16_FULL_SCALE * I16_FULL_SCALE),
        peak_of(frame_sums_of(s, 1)) == I16_FULL_SCALE,
{
    lemma_mono_frame_sums(s);
    let m = frame_sums_of(s, 1);
    assert forall|f: int| 0 <= f < m.len() implies abs(#[trigger] m[f]) == 32767 by {
        assert(m[f] == s[f] as int);
    }
    lemma_constant_magnitude(m, 32767);
}

} // verus!
