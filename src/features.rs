//! Frame features on fixed-point samples: RMS level, zero crossings and periodicity.
//!
//! A sample is an `i32` in `[-FULL_SCALE, FULL_SCALE]`, where `FULL_SCALE` stands for 1.0.
//! Levels are in the same units.
use vstd::prelude::*;

verus! {

/// A PCM sample in fixed point; `FULL_SCALE` is 1.0.
pub type Sample = i32;

/// The fixed-point value of 1.0.
pub const FULL_SCALE: i32 = 32768;

/// Longest frame that the feature functions take.
pub const MAX_FRAME_LEN: usize = 65536;

pub open spec fn valid_sample(x: Sample) -> bool {
    -FULL_SCALE <= x <= FULL_SCALE
}

pub open spec fn valid_samples(s: Seq<Sample>) -> bool {
    forall|i: int| 0 <= i < s.len() ==> valid_sample(#[trigger] s[i])
}

/// Sum of squares.
pub open spec fn sum_sq(s: Seq<Sample>) -> int
    decreases s.len(),
{
    if s.len() == 0 {
        0
    } else {
        sum_sq(s.drop_last()) + (s.last() as int) * (s.last() as int)
    }
}

/// Integer square root, rounded down.
pub open spec fn isqrt(n: nat) -> nat
    decreases n,
{
    if n == 0 {
        0
    } else {
        let r = 2 * isqrt(n / 4);
        if (r + 1) * (r + 1) <= n {
            r + 1
        } else {
            r
        }
    }
}

/// Root-mean-square level of a frame, rounded down; 0 for an empty frame.
pub open spec fn rms_level(s: Seq<Sample>) -> nat {
    if s.len() == 0 {
        0
    } else {
        isqrt((sum_sq(s) / (s.len() as int)) as nat)
    }
}

/// Number of sign changes between neighbouring samples (0 counts as positive).
pub open spec fn crossings(s: Seq<Sample>) -> nat
    decreases s.len(),
{
    if s.len() < 2 {
        0
    } else {
        crossings(s.drop_last()) + if (s.last() >= 0) != (s[s.len() - 2] >= 0) {
            1nat
        } else {
            0nat
        }
    }
}

/// The zero-crossing rate `crossings / (len - 1)` is below 0.05.
pub open spec fn low_crossing_rate(s: Seq<Sample>) -> bool {
    s.len() < 2 || 20 * crossings(s) < s.len() - 1
}

/// `sum_{i < k} s[i] * s[i + p]`.
pub open spec fn corr(s: Seq<Sample>, p: int, k: int) -> int
    decreases k,
{
    if k <= 0 {
        0
    } else {
        corr(s, p, k - 1) + (s[k - 1] as int) * (s[k - 1 + p] as int)
    }
}

/// The mean autocorrelation at lag `p` exceeds 0.3 (of full scale squared).
pub open spec fn periodic_at(s: Seq<Sample>, p: int) -> bool {
    10 * corr(s, p, s.len() - p) > 3 * (FULL_SCALE as int) * (FULL_SCALE as int) * (s.len() - p)
}

/// Smallest lag searched: the period of 400 Hz.
pub open spec fn min_lag(sample_rate: int) -> int {
    sample_rate / 400
}

/// End of the lags searched: the period of 80 Hz, and half the frame.
pub open spec fn lag_end(sample_rate: int, len: int) -> int {
    if sample_rate / 80 < len / 2 {
        sample_rate / 80
    } else {
        len / 2
    }
}

/// A voice pitch between 80 and 400 Hz shows in the frame: it is at least 20 ms long and
/// some lag in that range correlates above 0.3.
pub open spec fn pitch_present(sample_rate: int, s: Seq<Sample>) -> bool {
    &&& s.len() >= sample_rate / 50
    &&& exists|p: int|
        min_lag(sample_rate) <= p < lag_end(sample_rate, s.len() as int) && #[trigger] periodic_at(
            s,
            p,
        )
}

proof fn lemma_isqrt_bound(n: nat)
    ensures
        isqrt(n) * isqrt(n) <= n,
    decreases n,
{
    if n > 0 {
        let m = n / 4;
        lemma_isqrt_bound(m);
        let q = isqrt(m);
        let r = 2 * q;
        assert(4 * m <= n);
        assert(r * r <= n) by (nonlinear_arith)
            requires
                q * q <= m,
                r == 2 * q,
                4 * m <= n,
        ;
        let v = isqrt(n);
        if (r + 1) * (r + 1) <= n {
            assert(v == r + 1);
            assert(v * v <= n) by (nonlinear_arith)
                requires
                    v == r + 1,
                    (r + 1) * (r + 1) <= n,
            ;
        } else {
            assert(v == r);
            assert(v * v <= n) by (nonlinear_arith)
                requires
                    v == r,
                    r * r <= n,
            ;
        }
    } else {
        assert(isqrt(n) == 0);
    }
}

proof fn lemma_isqrt_le(n: nat, m: nat)
    requires
        n <= m * m,
    ensures
        isqrt(n) <= m,
{
    lemma_isqrt_bound(n);
    let r = isqrt(n);
    if r > m {
        assert(r * r > m * m) by (nonlinear_arith)
            requires
                r > m,
        ;
    }
}

fn isqrt_exec(n: u64) -> (r: u64)
    ensures
        r as nat == isqrt(n as nat),
    decreases n,
{
    if n == 0 {
        0
    } else {
        let q = isqrt_exec(n / 4);
        proof {
            lemma_isqrt_bound((n / 4) as nat);
            assert(q * q <= n / 4);
            assert(q <= 0x8000_0000) by {
                lemma_isqrt_le((n / 4) as nat, 0x8000_0000);
            }
        }
        let r = 2 * q;
        assert((r as int + 1) * (r as int + 1) <= 0x4_0000_0001_0000_0001 * 4) by (nonlinear_arith)
            requires
                r <= 0x1_0000_0000,
        ;
        if ((r as u128) + 1) * ((r as u128) + 1) <= n as u128 {
            r + 1
        } else {
            r
        }
    }
}

/// The RMS level of `s`.
pub fn rms_level_of(s: &[Sample]) -> (r: u32)
    requires
        valid_samples(s@),
    ensures
        r as nat == rms_level(s@),
        r <= FULL_SCALE,
{
    let n = s.len();
    if n == 0 {
        return 0;
    }
    assert(n as int <= 0x1_0000_0000_0000_0000) by {
        assert(n as u64 as int == n as int);
    }
    let mut acc: u128 = 0;
    let mut i: usize = 0;
    while i < n
        invariant
            n == s@.len(),
            n as int <= 0x1_0000_0000_0000_0000,
            i <= n,
            valid_samples(s@),
            acc as int == sum_sq(s@.subrange(0, i as int)),
            acc <= i * 0x4000_0000,
        decreases n - i,
    {
        let x = s[i] as i64;
        proof {
            assert(valid_sample(s@[i as int]));
            assert(s@.subrange(0, i as int + 1).drop_last() =~= s@.subrange(0, i as int));
        }
        assert(x * x <= 0x4000_0000) by (nonlinear_arith)
            requires
                -32768 <= x <= 32768,
        ;
        assert(x * x >= 0) by (nonlinear_arith);
        acc = acc + (x * x) as u128;
        i = i + 1;
    }
    proof {
        assert(s@.subrange(0, n as int) =~= s@);
    }
    let mean = acc / (n as u128);
    assert(mean <= 0x4000_0000) by (nonlinear_arith)
        requires
            mean == acc / (n as u128),
            acc <= n * 0x4000_0000,
            n > 0,
    ;
    let r = isqrt_exec(mean as u64);
    proof {
        lemma_isqrt_le(mean as nat, 32768);
    }
    r as u32
}

/// Number of sign changes in `s`.
pub fn crossings_of(s: &[Sample]) -> (r: usize)
    ensures
        r as nat == crossings(s@),
{
    let n = s.len();
    if n < 2 {
        return 0;
    }
    let mut count: usize = 0;
    let mut i: usize = 1;
    while i < n
        invariant
            n == s@.len(),
            1 <= i <= n,
            count <= i,
            count as nat == crossings(s@.subrange(0, i as int)),
        decreases n - i,
    {
        proof {
            let t = s@.subrange(0, i as int + 1);
            assert(t.drop_last() =~= s@.subrange(0, i as int));
        }
        if (s[i] >= 0) != (s[i - 1] >= 0) {
            count = count + 1;
        }
        i = i + 1;
    }
    proof {
        assert(s@.subrange(0, n as int) =~= s@);
    }
    count
}

/// Whether the zero-crossing rate of `s` is below 0.05.
pub fn has_low_crossing_rate(s: &[Sample]) -> (r: bool)
    ensures
        r == low_crossing_rate(s@),
{
    if s.len() < 2 {
        return true;
    }
    let c = crossings_of(s);
    proof {
        lemma_crossings_le(s@);
    }
    20 * (c as u128) < (s.len() - 1) as u128
}

proof fn lemma_crossings_le(s: Seq<Sample>)
    ensures
        crossings(s) <= s.len(),
    decreases s.len(),
{
    if s.len() >= 2 {
        lemma_crossings_le(s.drop_last());
    }
}

fn corr_at(s: &[Sample], p: usize) -> (r: i128)
    requires
        valid_samples(s@),
        p <= s@.len(),
    ensures
        r as int == corr(s@, p as int, s@.len() - p),
        -(s@.len() as int) * 0x4000_0000 <= r <= (s@.len() as int) * 0x4000_0000,
{
    let k_end = s.len() - p;
    assert(s@.len() <= 0x1_0000_0000_0000_0000) by {
        assert(s.len() as u64 as int == s@.len());
    }
    let mut acc: i128 = 0;
    let mut k: usize = 0;
    while k < k_end
        invariant
            k_end == s@.len() - p,
            p <= s@.len() <= 0x1_0000_0000_0000_0000,
            k <= k_end,
            valid_samples(s@),
            acc as int == corr(s@, p as int, k as int),
            -(k as int) * 0x4000_0000 <= acc <= (k as int) * 0x4000_0000,
        decreases k_end - k,
    {
        let a = s[k] as i64;
        let b = s[k + p] as i64;
        proof {
            assert(valid_sample(s@[k as int]));
            assert(valid_sample(s@[k + p]));
        }
        assert(-0x4000_0000 <= a * b <= 0x4000_0000) by (nonlinear_arith)
            requires
                -32768 <= a <= 32768,
                -32768 <= b <= 32768,
        ;
        acc = acc + (a * b) as i128;
        k = k + 1;
    }
    acc
}

/// Whether a pitch between 80 and 400 Hz shows in `s`.
pub fn detect_pitch(sample_rate: usize, s: &[Sample]) -> (r: bool)
    requires
        valid_samples(s@),
    ensures
        r == pitch_present(sample_rate as int, s@),
{
    let n = s.len();
    if n < sample_rate / 50 {
        return false;
    }
    assert(n as int <= 0x1_0000_0000_0000_0000) by {
        assert(n as u64 as int == n as int);
    }
    let lo = sample_rate / 400;
    let hi = if sample_rate / 80 < n / 2 {
        sample_rate / 80
    } else {
        n / 2
    };
    let mut p = lo;
    while p < hi
        invariant
            lo == min_lag(sample_rate as int),
            hi == lag_end(sample_rate as int, n as int),
            n == s@.len(),
            n as int <= 0x1_0000_0000_0000_0000,
            hi <= n / 2,
            n >= sample_rate / 50,
            lo <= p,
            valid_samples(s@),
            forall|q: int| lo <= q < p ==> !#[trigger] periodic_at(s@, q),
        decreases hi - p,
    {
        let c = corr_at(s, p);
        let count = (n - p) as i128;
        assert(0 <= count <= 0x1_0000_0000_0000_0000);
        assert(3 * 32768 * 32768 * count <= 3 * 32768 * 32768 * 0x1_0000_0000_0000_0000) by (nonlinear_arith)
            requires
                0 <= count <= 0x1_0000_0000_0000_0000,
        ;
        assert(-(n as int) * 0x4000_0000 >= -0x1_0000_0000_0000_0000 * 0x4000_0000) by (nonlinear_arith)
            requires
                n <= 0x1_0000_0000_0000_0000,
        ;
        assert((n as int) * 0x4000_0000 <= 0x1_0000_0000_0000_0000 * 0x4000_0000) by (nonlinear_arith)
            requires
                n <= 0x1_0000_0000_0000_0000,
        ;
        let lhs = 10 * c;
        let rhs = 3 * (FULL_SCALE as i128) * (FULL_SCALE as i128) * count;
        if lhs > rhs {
            assert(periodic_at(s@, p as int));
            assert(s@.len() >= sample_rate as int / 50);
            assert(min_lag(sample_rate as int) <= p < lag_end(sample_rate as int, s@.len() as int));
            assert(pitch_present(sample_rate as int, s@));
            return true;
        }
        p = p + 1;
    }
    false
}

/// A copy of `s`.
pub fn copy_samples(s: &[Sample]) -> (r: Vec<Sample>)
    ensures
        r@ == s@,
{
    let mut out: Vec<Sample> = Vec::new();
    let mut i: usize = 0;
    while i < s.len()
        invariant
            i <= s@.len(),
            out@ == s@.subrange(0, i as int),
        decreases s@.len() - i,
    {
        out.push(s[i]);
        proof {
            assert(out@ =~= s@.subrange(0, i as int + 1));
        }
        i = i + 1;
    }
    proof {
        assert(s@.subrange(0, s@.len() as int) =~= s@);
    }
    out
}

/// Appends a copy of `s` to `v`.
pub fn append_samples(v: &mut Vec<Sample>, s: &[Sample])
    ensures
        final(v)@ == old(v)@ + s@,
{
    let ghost v0 = v@;
    let mut i: usize = 0;
    while i < s.len()
        invariant
            i <= s@.len(),
            v@ == v0 + s@.subrange(0, i as int),
        decreases s@.len() - i,
    {
        v.push(s[i]);
        proof {
            assert(v@ =~= v0 + s@.subrange(0, i as int + 1));
        }
        i = i + 1;
    }
    proof {
        assert(s@.subrange(0, s@.len() as int) =~= s@);
    }
}

/// `s[from..to]` as a new vector.
pub fn slice_samples(s: &[Sample], from: usize, to: usize) -> (r: Vec<Sample>)
    requires
        from <= to <= s@.len(),
    ensures
        r@ == s@.subrange(from as int, to as int),
{
    let mut out: Vec<Sample> = Vec::new();
    let mut i: usize = from;
    while i < to
        invariant
            from <= i <= to <= s@.len(),
            out@ == s@.subrange(from as int, i as int),
        decreases to - i,
    {
        out.push(s[i]);
        proof {
            assert(out@ =~= s@.subrange(from as int, i as int + 1));
        }
        i = i + 1;
    }
    out
}

} // verus!
