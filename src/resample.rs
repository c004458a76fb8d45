use vstd::prelude::*;

verus! {

/// `round(n * dst / src)`, halves rounded up: the length of `n` samples resampled from
/// `src` Hz to `dst` Hz.
pub open spec fn resampled_len(n: nat, src: nat, dst: nat) -> nat {
    ((2 * n * dst + src) / (2 * src)) as nat
}

/// Source position of output sample `i`: index `i * src / dst` and remainder over `dst`.
pub open spec fn source_index(i: int, src: nat, dst: nat) -> int {
    (i * src) / (dst as int)
}

pub open spec fn source_frac(i: int, src: nat, dst: nat) -> int {
    (i * src) % (dst as int)
}

/// Output sample `i` of the linear interpolation, scaled by `dst`: the two source samples
/// that bracket the position, weighted by the distance to each.
pub open spec fn blended(x: Seq<i64>, i: int, src: nat, dst: nat) -> int {
    let i0 = source_index(i, src, dst);
    let i1 = if i0 + 1 < x.len() {
        i0 + 1
    } else {
        x.len() - 1
    };
    let r = source_frac(i, src, dst);
    x[i0] * (dst - r) + x[i1] * r
}

/// The resampled signal as integers: the input itself for equal rates or an empty input,
/// else the blended samples at scale `dst`.
pub open spec fn resampled_of(x: Seq<i64>, src: nat, dst: nat) -> Seq<int> {
    if x.len() == 0 || src == dst {
        x.map_values(|v: i64| v as int)
    } else {
        Seq::new(resampled_len(x.len(), src, dst), |i: int| blended(x, i, src, dst))
    }
}

/// Resampled signal: sample `i` stands for `samples[i] / scale` in the units of the input.
pub struct Resampled {
    pub samples: Vec<i128>,
    pub scale: u64,
}

proof fn lemma_index_in_range(i: int, n: int, src: int, dst: int)
    requires
        n > 0,
        src > 0,
        dst > 0,
        0 <= i < (2 * n * dst + src) / (2 * src),
    ensures
        0 <= i * src < n * dst,
        0 <= (i * src) / dst < n,
        0 <= (i * src) % dst < dst,
{
    let len = (2 * n * dst + src) / (2 * src);
    assert(len * (2 * src) <= 2 * n * dst + src) by (nonlinear_arith)
        requires
            len == (2 * n * dst + src) / (2 * src),
            src > 0,
            n >= 0,
            dst > 0,
    ;
    assert((i + 1) * (2 * src) <= len * (2 * src)) by (nonlinear_arith)
        requires
            i + 1 <= len,
            src > 0,
    ;
    assert(i * src < n * dst) by (nonlinear_arith)
        requires
            (i + 1) * (2 * src) <= 2 * n * dst + src,
            src > 0,
    ;
    assert(0 <= i * src) by (nonlinear_arith)
        requires
            i >= 0,
            src > 0,
    ;
    assert((i * src) / dst < n) by (nonlinear_arith)
        requires
            0 <= i * src < n * dst,
            dst > 0,
    ;
    assert(0 <= (i * src) / dst) by (nonlinear_arith)
        requires
            0 <= i * src,
            dst > 0,
    ;
}

/// Where output sample `i` of a resampling reads: it blends `index0` with weight
/// `(scale - frac) / scale` and `index1` with weight `frac / scale`, `scale` being the
/// destination rate.
#[derive(Clone, Copy, Debug, PartialEq, Eq)]
pub struct ResampleTap {
    pub index0: usize,
    pub index1: usize,
    pub frac: u64,
}

pub open spec fn tap_of(i: int, n: nat, src: nat, dst: nat) -> ResampleTap {
    let i0 = source_index(i, src, dst);
    ResampleTap {
        index0: i0 as usize,
        index1: (if i0 + 1 < n {
            i0 + 1
        } else {
            n - 1
        }) as usize,
        frac: source_frac(i, src, dst) as u64,
    }
}

/// The taps of a linear resampling of `n` samples from `src_rate` to `dst_rate`: there are
/// `round(n * dst / src)` of them, and each reads inside the input. No samples need no taps,
/// whatever the rates.
pub fn resample_plan(n: usize, src_rate: u32, dst_rate: u32) -> (taps: Vec<ResampleTap>)
    requires
        n > 0 ==> src_rate > 0 && dst_rate > 0,
    ensures
        n == 0 ==> taps@.len() == 0,
        n > 0 ==> taps@.len() == resampled_len(n as nat, src_rate as nat, dst_rate as nat),
        forall|i: int|
            0 <= i < taps@.len() ==> #[trigger] taps@[i] == tap_of(i, n as nat, src_rate as nat, dst_rate as nat),
        forall|i: int|
            0 <= i < taps@.len() ==> (#[trigger] taps@[i]).index0 < n && taps@[i].index1 < n
                && taps@[i].index0 as int == source_index(i, src_rate as nat, dst_rate as nat)
                && taps@[i].frac as int == source_frac(i, src_rate as nat, dst_rate as nat)
                && taps@[i].frac < dst_rate,
{
    let mut taps: Vec<ResampleTap> = Vec::new();
    if n == 0 {
        return taps;
    }
    let s = src_rate as u128;
    let d = dst_rate as u128;
    proof {
        assert(2 * (n as int) * d + s <= 2 * 0xffff_ffff_ffff_ffff * 0xffff_ffff + 0xffff_ffff)
            by (nonlinear_arith)
            requires
                n <= 0xffff_ffff_ffff_ffff,
                d <= 0xffff_ffff,
                s <= 0xffff_ffff,
        ;
    }
    let out_len: u128 = (2 * (n as u128) * d + s) / (2 * s);
    proof {
        assert(out_len <= n * d) by (nonlinear_arith)
            requires
                out_len == (2 * (n as int) * d + s) / (2 * s),
                s >= 1,
                n >= 1,
                d >= 1,
        ;
        assert(n * d <= 0xffff_ffff_ffff_ffff * 0xffff_ffff) by (nonlinear_arith)
            requires
                n <= 0xffff_ffff_ffff_ffff,
                d <= 0xffff_ffff,
        ;
    }
    let mut i: u128 = 0;
    while i < out_len
        invariant
            n > 0,
            n <= usize::MAX,
            s == src_rate as u128,
            d == dst_rate as u128,
            s > 0,
            d > 0,
            out_len == resampled_len(n as nat, src_rate as nat, dst_rate as nat),
            out_len <= n * d,
            n * d <= 0xffff_ffff_ffff_ffff * 0xffff_ffff,
            i <= out_len,
            taps@.len() == i,
            forall|k: int|
                0 <= k < i ==> #[trigger] taps@[k] == tap_of(k, n as nat, src_rate as nat, dst_rate as nat),
            forall|k: int|
                0 <= k < i ==> (#[trigger] taps@[k]).index0 < n && taps@[k].index1 < n
                    && taps@[k].index0 as int == source_index(k, src_rate as nat, dst_rate as nat)
                    && taps@[k].frac as int == source_frac(k, src_rate as nat, dst_rate as nat)
                    && taps@[k].frac < dst_rate,
        decreases out_len - i,
    {
        proof {
            lemma_index_in_range(i as int, n as int, s as int, d as int);
        }
        let pos = i * s;
        let i0 = (pos / d) as usize;
        let frac = (pos % d) as u64;
        let i1 = if i0 + 1 < n { i0 + 1 } else { n - 1 };
        taps.push(ResampleTap { index0: i0, index1: i1, frac });
        i = i + 1;
    }
    taps
}

/// Resamples `input` from `src_rate` to `dst_rate` by linear interpolation. Equal rates and
/// an empty input (whatever the rates) give the input back unchanged, at scale 1; otherwise the output has
/// `round(len * dst / src)` samples at scale `dst_rate`.
pub fn resample_linear(input: &Vec<i64>, src_rate: u32, dst_rate: u32) -> (r: Resampled)
    requires
        input@.len() > 0 ==> src_rate > 0 && dst_rate > 0,
    ensures
        input@.len() > 0 ==> r.samples@.len() == resampled_len(input@.len(), src_rate as nat, dst_rate as nat),
        r.samples@.len() == resampled_of(input@, src_rate as nat, dst_rate as nat).len(),
        forall|i: int| 0 <= i < r.samples@.len() ==> #[trigger] r.samples@[i] == resampled_of(input@, src_rate as nat, dst_rate as nat)[i],
        input@.len() == 0 || src_rate == dst_rate ==> {
            &&& r.scale == 1
            &&& r.samples@.len() == input@.len()
            &&& forall|i: int| 0 <= i < input@.len() ==> #[trigger] r.samples@[i] == input@[i] as int
        },
        input@.len() > 0 && src_rate != dst_rate ==> {
            &&& r.scale == dst_rate
            &&& forall|i: int|
                0 <= i < r.samples@.len() ==> #[trigger] r.samples@[i] == blended(
                    input@,
                    i,
                    src_rate as nat,
                    dst_rate as nat,
                )
        },
{
    let n = input.len();
    proof {
        if n > 0 {
            lemma_identity_len(n as nat, src_rate as nat);
        }
    }
    if n == 0 || src_rate == dst_rate {
        let mut out: Vec<i128> = Vec::with_capacity(n);
        let mut i: usize = 0;
        while i < n
            invariant
                n == input@.len(),
                i <= n,
                out@.len() == i,
                forall|k: int| 0 <= k < i ==> #[trigger] out@[k] == input@[k] as int,
            decreases n - i,
        {
            out.push(input[i] as i128);
            i = i + 1;
        }
        return Resampled { samples: out, scale: 1 };
    }
    let taps = resample_plan(n, src_rate, dst_rate);
    let d = dst_rate as i128;
    let mut out: Vec<i128> = Vec::with_capacity(taps.len());
    let mut i: usize = 0;
    while i < taps.len()
        invariant
            n == input@.len(),
            n > 0,
            d == dst_rate as i128,
            src_rate != dst_rate,
            taps@.len() == resampled_len(n as nat, src_rate as nat, dst_rate as nat),
            forall|k: int|
                0 <= k < taps@.len() ==> (#[trigger] taps@[k]).index0 < n && taps@[k].index1 < n
                    && taps@[k].index0 as int == source_index(k, src_rate as nat, dst_rate as nat)
                    && taps@[k].frac as int == source_frac(k, src_rate as nat, dst_rate as nat)
                    && taps@[k].frac < dst_rate,
            forall|k: int| 0 <= k < taps@.len() ==> #[trigger] taps@[k] == tap_of(k, n as nat, src_rate as nat, dst_rate as nat),
            i <= taps@.len(),
            out@.len() == i,
            forall|k: int|
                0 <= k < i ==> #[trigger] out@[k] == blended(
                    input@,
                    k,
                    src_rate as nat,
                    dst_rate as nat,
                ),
        decreases taps@.len() - i,
    {
        let t = taps[i];
        let x0 = input[t.index0] as i128;
        let x1 = input[t.index1] as i128;
        let r = t.frac as i128;
        proof {
            assert(taps@[i as int] == tap_of(i as int, n as nat, src_rate as nat, dst_rate as nat));
            assert(-0x8000_0000_0000_0000_0000_0000 <= x0 * (d - r) <= 0x8000_0000_0000_0000_0000_0000)
                by (nonlinear_arith)
                requires
                    -0x8000_0000_0000_0000 <= x0 <= 0x7fff_ffff_ffff_ffff,
                    0 < d - r <= 0xffff_ffff,
            ;
            assert(-0x8000_0000_0000_0000_0000_0000 <= x1 * r <= 0x8000_0000_0000_0000_0000_0000)
                by (nonlinear_arith)
                requires
                    -0x8000_0000_0000_0000 <= x1 <= 0x7fff_ffff_ffff_ffff,
                    0 <= r <= 0xffff_ffff,
            ;
        }
        out.push(x0 * (d - r) + x1 * r);
        i = i + 1;
    }
    Resampled { samples: out, scale: dst_rate as u64 }
}

proof fn lemma_identity_len(n: nat, rate: nat)
    requires
        rate > 0,
    ensures
        resampled_len(n, rate, rate) == n,
{
    assert((2 * n * rate + rate) / (2 * rate) == n) by (nonlinear_arith)
        requires
            rate > 0,
    ;
}

proof fn lemma_empty_len(src: nat, dst: nat)
    requires
        src > 0,
    ensures
        resampled_len(0, src, dst) == 0,
{
    assert((2 * 0 * dst + src) / (2 * src) == 0) by (nonlinear_arith)
        requires
            src > 0,
    ;
}

/// Resampling between equal rates is the identity, for every input; resampling an empty
/// input gives an empty output, for every pair of rates.
pub proof fn lemma_resample_identity_and_empty(n: nat, src: nat, dst: nat)
    requires
        src > 0,
        dst > 0,
    ensures
        resampled_len(n, src, src) == n,
        resampled_len(0, src, dst) == 0,
{
    lemma_identity_len(n, src);
    lemma_empty_len(src, dst);
}

} // verus!
