use vstd::prelude::*;

verus! {

/// One segment's backdrop, quantized to 0–100: its relative luminance
/// (`luma`, 0 black – 100 white) and how much it varies across the segment
/// (`spread`, 0 uniform – 100).
#[derive(Debug, Clone, Copy, PartialEq, Eq, Structural)]
pub struct BackdropSample {
    pub luma: u8,
    pub spread: u8,
}

/// What a segment reports when its backdrop cannot be determined at all:
/// mid luminance, full spread.
pub fn unknown_sample() -> (s: BackdropSample)
    ensures
        s == (BackdropSample { luma: 50, spread: 100 }),
{
    BackdropSample { luma: 50, spread: 100 }
}

/// An 8-bit sRGB channel value in linear light, in units of 1/100000:
/// the WCAG transfer function (`c / 12.92` below 0.04045, else
/// `((c + 0.055) / 1.055)^2.4`), rounded to the nearest unit.
pub const SRGB_TO_LINEAR: [u32; 256] = [
    0, 30, 61, 91, 121, 152, 182, 212, 243, 273, 304, 335, 368, 402, 439, 478,
    518, 561, 605, 651, 700, 750, 802, 857, 913, 972, 1033, 1096, 1161, 1229, 1298, 1370,
    1444, 1521, 1600, 1681, 1764, 1850, 1938, 2029, 2122, 2217, 2315, 2416, 2519, 2624, 2732, 2843,
    2956, 3071, 3190, 3310, 3434, 3560, 3689, 3820, 3955, 4092, 4231, 4374, 4519, 4667, 4817, 4971,
    5127, 5286, 5448, 5613, 5781, 5951, 6125, 6301, 6480, 6663, 6848, 7036, 7227, 7421, 7619, 7819,
    8022, 8228, 8438, 8650, 8866, 9084, 9306, 9531, 9759, 9990, 10224, 10462, 10702, 10946, 11193, 11444,
    11697, 11954, 12214, 12477, 12744, 13014, 13287, 13563, 13843, 14126, 14413, 14703, 14996, 15293, 15593, 15896,
    16203, 16513, 16827, 17144, 17465, 17789, 18116, 18447, 18782, 19120, 19462, 19807, 20156, 20508, 20864, 21223,
    21586, 21953, 22323, 22697, 23074, 23455, 23840, 24228, 24620, 25016, 25415, 25818, 26225, 26636, 27050, 27468,
    27889, 28315, 28744, 29177, 29614, 30054, 30499, 30947, 31399, 31855, 32314, 32778, 33245, 33716, 34191, 34670,
    35153, 35640, 36131, 36625, 37124, 37626, 38133, 38643, 39157, 39676, 40198, 40724, 41254, 41789, 42327, 42869,
    43415, 43966, 44520, 45079, 45641, 46208, 46778, 47353, 47932, 48515, 49102, 49693, 50289, 50888, 51492, 52100,
    52712, 53328, 53948, 54572, 55201, 55834, 56471, 57112, 57758, 58408, 59062, 59720, 60383, 61050, 61721, 62396,
    63076, 63760, 64448, 65141, 65837, 66539, 67244, 67954, 68669, 69387, 70110, 70838, 71569, 72306, 73046, 73791,
    74540, 75294, 76052, 76815, 77582, 78354, 79130, 79910, 80695, 81485, 82279, 83077, 83880, 84687, 85499, 86316,
    87137, 87962, 88792, 89627, 90466, 91310, 92158, 93011, 93869, 94731, 95597, 96469, 97345, 98225, 99110, 100000,
];

/// Linear-light value of one channel, in units of 1/100000.
pub open spec fn linear(c: u8) -> int {
    SRGB_TO_LINEAR@[c as int] as int
}

/// Relative luminance of full white in the units `pixel_luma` uses:
/// the WCAG weights are taken in 1/10000 and the channels in 1/100000.
pub const LUMA_FULL: u64 = 1_000_000_000;

/// A bound on every pixel luminance (weights summing to 10000, channels
/// below 2^32).
pub const LUMA_BOUND: u64 = 42_949_672_950_000;

/// WCAG relative luminance of pixel `i` of an RGBA byte buffer:
/// 0.2126 R + 0.7152 G + 0.0722 B over linear-light channels.
pub open spec fn pixel_luma(p: Seq<u8>, i: int) -> u64 {
    (2126 * linear(p[4 * i]) + 7152 * linear(p[4 * i + 1]) + 722 * linear(p[4 * i + 2])) as u64
}

/// The luminance of every whole pixel (a trailing partial pixel is ignored).
pub open spec fn lumas(p: Seq<u8>) -> Seq<u64> {
    Seq::new(p.len() / 4, |i: int| pixel_luma(p, i))
}

pub open spec fn seq_sum(s: Seq<u64>) -> int
    decreases s.len(),
{
    if s.len() == 0 {
        0
    } else {
        seq_sum(s.drop_last()) + s.last()
    }
}

/// Number of elements of `s` that are at most `v`.
pub open spec fn count_le(s: Seq<u64>, v: int) -> nat
    decreases s.len(),
{
    if s.len() == 0 {
        0
    } else {
        count_le(s.drop_last(), v) + if s.last() <= v {
            1nat
        } else {
            0nat
        }
    }
}

/// `v` is the element at index `k` of `s` once sorted ascending: fewer
/// than `k + 1` elements lie below it and more than `k` lie at or below it.
pub open spec fn is_kth(s: Seq<u64>, k: int, v: int) -> bool {
    count_le(s, v - 1) <= k < count_le(s, v)
}

/// The `k`-th smallest element of `s` (0-based), `sorted(s)[k]`.
pub open spec fn kth_smallest(s: Seq<u64>, k: int) -> int {
    choose|v: int| is_kth(s, k, v)
}

/// `round(100 * num / den)` clamped to 0..=100, for `den > 0`.
pub open spec fn percent(num: int, den: int) -> int {
    if num <= 0 {
        0
    } else {
        let q = (200 * num + den) / (2 * den);
        if q > 100 {
            100
        } else {
            q
        }
    }
}

/// What `measure_pixels` reports for an RGBA buffer: `None` for fewer than
/// four bytes; otherwise the mean luminance, and the gap between the 90th
/// and the 10th luminance percentile (the elements at `n - 1 - n/10` and
/// `n/10` of the sorted luminances), both as whole percentages.
pub open spec fn measure_spec(p: Seq<u8>) -> Option<BackdropSample> {
    let n = p.len() / 4;
    if n == 0 {
        None
    } else {
        let l = lumas(p);
        Some(
            BackdropSample {
                luma: percent(seq_sum(l), n * LUMA_FULL) as u8,
                spread: percent(
                    kth_smallest(l, n - 1 - n / 10) - kth_smallest(l, (n / 10) as int),
                    LUMA_FULL as int,
                ) as u8,
            },
        )
    }
}

// ---------------------------------------------------------------------------
// Order statistics
// ---------------------------------------------------------------------------

proof fn lemma_count_le_monotone(s: Seq<u64>, a: int, b: int)
    requires
        a <= b,
    ensures
        count_le(s, a) <= count_le(s, b),
    decreases s.len(),
{
    if s.len() > 0 {
        lemma_count_le_monotone(s.drop_last(), a, b);
    }
}

proof fn lemma_count_le_bounds(s: Seq<u64>, v: int)
    ensures
        count_le(s, v) <= s.len(),
        v < 0 ==> count_le(s, v) == 0,
        v >= LUMA_BOUND && (forall|i: int| 0 <= i < s.len() ==> s[i] <= LUMA_BOUND) ==> count_le(
            s,
            v,
        ) == s.len(),
    decreases s.len(),
{
    if s.len() > 0 {
        lemma_count_le_bounds(s.drop_last(), v);
        if v >= LUMA_BOUND && (forall|i: int| 0 <= i < s.len() ==> s[i] <= LUMA_BOUND) {
            assert(s.last() == s[s.len() - 1]);
            assert forall|i: int| 0 <= i < s.drop_last().len() implies s.drop_last()[i]
                <= LUMA_BOUND by {
                assert(s.drop_last()[i] == s[i]);
            }
        }
    }
}

/// The `k`-th smallest element is the unique `v` that `is_kth` picks.
proof fn lemma_kth_unique(s: Seq<u64>, k: int, v: int)
    requires
        is_kth(s, k, v),
    ensures
        kth_smallest(s, k) == v,
{
    let w = kth_smallest(s, k);
    assert(is_kth(s, k, w));
    if w < v {
        lemma_count_le_monotone(s, w, v - 1);
    } else if v < w {
        lemma_count_le_monotone(s, v, w - 1);
    }
}

fn count_le_exec(s: &Vec<u64>, v: u64) -> (c: usize)
    ensures
        c == count_le(s@, v as int),
{
    let mut c: usize = 0;
    let mut i: usize = 0;
    while i < s.len()
        invariant
            i <= s.len(),
            c == count_le(s@.take(i as int), v as int),
            c <= i,
        decreases s.len() - i,
    {
        assert(s@.take(i + 1).drop_last() == s@.take(i as int));
        if s[i] <= v {
            c = c + 1;
        }
        i = i + 1;
    }
    assert(s@.take(s.len() as int) == s@);
    c
}

/// The `k`-th smallest element of `s`, found by bisecting on the value.
fn kth_exec(s: &Vec<u64>, k: usize) -> (r: u64)
    requires
        k < s.len(),
        forall|i: int| 0 <= i < s.len() ==> s@[i] <= LUMA_BOUND,
    ensures
        r == kth_smallest(s@, k as int),
{
    let mut lo: u64 = 0;
    let mut hi: u64 = LUMA_BOUND;
    proof {
        lemma_count_le_bounds(s@, LUMA_BOUND as int);
        lemma_count_le_bounds(s@, -1);
    }
    while lo < hi
        invariant
            lo <= hi <= LUMA_BOUND,
            k < s.len(),
            count_le(s@, hi as int) > k,
            count_le(s@, lo - 1) <= k,
        decreases hi - lo,
    {
        let mid = lo + (hi - lo) / 2;
        let c = count_le_exec(s, mid);
        if c > k {
            hi = mid;
        } else {
            lo = mid + 1;
        }
    }
    proof {
        lemma_kth_unique(s@, k as int, lo as int);
    }
    lo
}

// ---------------------------------------------------------------------------
// Measuring pixels
// ---------------------------------------------------------------------------

fn percent_exec(num: u128, den: u128) -> (r: u8)
    requires
        den > 0,
        num <= 0x1_0000_0000_0000_0000_0000_0000_0000u128,
        den <= 0x1_0000_0000_0000_0000_0000_0000_0000u128,
    ensures
        r == percent(num as int, den as int),
{
    if num == 0 {
        0
    } else {
        let q = (200 * num + den) / (2 * den);
        if q > 100 {
            100
        } else {
            q as u8
        }
    }
}

proof fn lemma_sum_bound(s: Seq<u64>)
    requires
        forall|i: int| 0 <= i < s.len() ==> s[i] <= LUMA_BOUND,
    ensures
        0 <= seq_sum(s) <= s.len() * LUMA_BOUND,
    decreases s.len(),
{
    if s.len() > 0 {
        assert forall|i: int| 0 <= i < s.drop_last().len() implies s.drop_last()[i]
            <= LUMA_BOUND by {
            assert(s.drop_last()[i] == s[i]);
        }
        lemma_sum_bound(s.drop_last());
        assert(s.last() == s[s.len() - 1]);
    }
}

/// Measure a block of RGBA pixels: mean luminance, and the spread between
/// the 10th and 90th luminance percentiles (so a lone highlight does not
/// read as a busy backdrop). `None` when there is not one whole pixel.
///
/// The luminance is computed in exact integer arithmetic over the
/// 1/100000 linear-light table `SRGB_TO_LINEAR`, not in single-precision
/// floating point: where the exact value lies within a rounding step of a
/// half percent, the whole percentage can differ by one from an `f32`
/// computation of the same formula (for the pixel `(0, 8, 60, 255)` this
/// gives a luma of 1 where `f32` arithmetic gives 0).
pub fn measure_pixels(rgba: &[u8]) -> (r: Option<BackdropSample>)
    ensures
        r == measure_spec(rgba@),
{
    let len = rgba.len();
    let n = len / 4;
    if n == 0 {
        return None;
    }
    let ghost l = lumas(rgba@);
    let mut vals: Vec<u64> = Vec::new();
    let mut sum: u128 = 0;
    let mut i: usize = 0;
    while i < n
        invariant
            n == rgba@.len() / 4,
            len == rgba@.len(),
            i <= n,
            l == lumas(rgba@),
            vals@ == l.take(i as int),
            sum == seq_sum(vals@),
            sum <= i * LUMA_BOUND,
            forall|j: int| 0 <= j < vals@.len() ==> vals@[j] <= LUMA_BOUND,
        decreases n - i,
    {
        assert(4 * i + 3 < len);
        let r = SRGB_TO_LINEAR[rgba[4 * i] as usize] as u64;
        let g = SRGB_TO_LINEAR[rgba[4 * i + 1] as usize] as u64;
        let b = SRGB_TO_LINEAR[rgba[4 * i + 2] as usize] as u64;
        let lv = 2126 * r + 7152 * g + 722 * b;
        assert(lv == pixel_luma(rgba@, i as int));
        vals.push(lv);
        assert(vals@.drop_last() == l.take(i as int));
        assert(l.take(i + 1) == l.take(i as int).push(lv));
        assert(sum + lv <= (i + 1) * LUMA_BOUND) by (nonlinear_arith)
            requires
                sum <= i * LUMA_BOUND,
                lv <= LUMA_BOUND,
        ;
        sum = sum + lv as u128;
        i = i + 1;
    }
    assert(vals@ == l);
    assert(sum <= n * LUMA_BOUND);
    assert(n * LUMA_BOUND <= 0x1_0000_0000_0000_0000_0000_0000_0000u128) by (nonlinear_arith)
        requires
            n <= usize::MAX,
            LUMA_BOUND < 0x4000_0000_0000,
    ;
    let den = (n as u128) * (LUMA_FULL as u128);
    assert(den <= 0x1_0000_0000_0000_0000_0000_0000_0000u128) by (nonlinear_arith)
        requires
            n <= usize::MAX,
            den == n * LUMA_FULL,
    ;
    let luma = percent_exec(sum, den);
    let lo = kth_exec(&vals, n / 10);
    let hi = kth_exec(&vals, n - 1 - n / 10);
    let spread = if hi > lo {
        percent_exec((hi - lo) as u128, LUMA_FULL as u128)
    } else {
        0
    };
    Some(BackdropSample { luma, spread })
}

} // verus!
