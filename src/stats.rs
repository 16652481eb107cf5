use vstd::prelude::*;
use vstd::arithmetic::div_mod::{lemma_fundamental_div_mod, lemma_fundamental_div_mod_converse};

verus! {

/// The sum of all readings.
pub open spec fn sum_of(s: Seq<i64>) -> int
    decreases s.len(),
{
    if s.len() == 0 {
        0
    } else {
        sum_of(s.drop_last()) + s.last()
    }
}

/// The smallest reading; `i64::MAX` for no readings, the seed of a running minimum.
pub open spec fn min_of(s: Seq<i64>) -> int
    decreases s.len(),
{
    if s.len() == 0 {
        i64::MAX as int
    } else {
        let m = min_of(s.drop_last());
        if (s.last() as int) < m {
            s.last() as int
        } else {
            m
        }
    }
}

/// The largest reading; `i64::MIN` for no readings, the seed of a running maximum.
pub open spec fn max_of(s: Seq<i64>) -> int
    decreases s.len(),
{
    if s.len() == 0 {
        i64::MIN as int
    } else {
        let m = max_of(s.drop_last());
        if (s.last() as int) > m {
            s.last() as int
        } else {
            m
        }
    }
}

/// `n / d` rounded to the nearest integer, halves rounded up.
pub open spec fn round_div(n: int, d: int) -> int {
    (2 * n + d) / (2 * d)
}

/// The mean of the readings, rounded to the nearest hundredth of a degree.
pub open spec fn mean_of(s: Seq<i64>) -> int {
    round_div(sum_of(s), s.len() as int)
}

/// Descriptive statistics of a run of readings (hundredths of a degree).
#[derive(Debug, Clone, Copy, PartialEq, Eq, Structural)]
pub struct Stats {
    pub min: i64,
    pub max: i64,
    pub avg: i64,
    pub count: usize,
}

impl Stats {
    /// What the statistics of `s` are.
    pub open spec fn describes(self, s: Seq<i64>) -> bool {
        &&& self.count == s.len()
        &&& self.min == min_of(s)
        &&& self.max == max_of(s)
        &&& self.avg == mean_of(s)
    }

    /// The empty accumulator: no readings, the running minimum and maximum at
    /// their seeds.
    pub fn default() -> (r: Self)
        ensures
            r.min == i64::MAX,
            r.max == i64::MIN,
            r.avg == 0,
            r.count == 0,
    {
        Stats { min: i64::MAX, max: i64::MIN, avg: 0, count: 0 }
    }

    /// The minimum, maximum, rounded mean and count of `values`;
    /// `None` when there are no values, whose mean is undefined.
    pub fn from(values: &[i64]) -> (r: Option<Self>)
        ensures
            r is None <==> values@.len() == 0,
            r matches Some(st) ==> st.describes(values@),
    {
        let n = values.len();
        if n == 0 {
            return None;
        }
        let mut ret = Stats::default();
        let mut i: usize = 0;
        while i < n
            invariant
                n == values@.len(),
                i <= n,
                ret.min == min_of(values@.take(i as int)),
                ret.max == max_of(values@.take(i as int)),
                ret.count == i,
                ret.avg == 0,
            decreases n - i,
        {
            let v = values[i];
            proof {
                assert(values@.take(i + 1).drop_last() =~= values@.take(i as int));
            }
            if v < ret.min {
                ret.min = v;
            }
            if v > ret.max {
                ret.max = v;
            }
            ret.count = ret.count + 1;
            i = i + 1;
        }
        proof {
            assert(values@.take(n as int) =~= values@);
        }
        let lo = ret.min;
        // The sum of the offsets above the minimum: each is below 2^64, and
        // there are fewer than 2^64 of them, so the total fits in a `u128`.
        let mut acc: u128 = 0;
        let mut j: usize = 0;
        while j < n
            invariant
                n == values@.len(),
                n > 0,
                j <= n,
                lo == min_of(values@),
                acc == sum_of(values@.take(j as int)) - j * lo,
                acc <= j * 0x1_0000_0000_0000_0000,
            decreases n - j,
        {
            proof {
                assert(values@.take(j + 1).drop_last() =~= values@.take(j as int));
                lemma_min_le(values@, j as int);
                assert((j + 1) * 0x1_0000_0000_0000_0000 <= 0xffff_ffff_ffff_ffff * 0x1_0000_0000_0000_0000)
                    by (nonlinear_arith)
                    requires j + 1 <= 0xffff_ffff_ffff_ffff;
            }
            proof {
                assert(values@.take(j + 1).last() == values@[j as int]);
                assert(sum_of(values@.take(j + 1)) == sum_of(values@.take(j as int)) + values@[j as int]);
                assert((j + 1) * lo == j * lo + lo) by (nonlinear_arith);
            }
            let off: u128 = (values[j] as i128 - lo as i128) as u128;
            acc = acc + off;
            j = j + 1;
        }
        proof {
            assert(values@.take(n as int) =~= values@);
        }
        let cnt: u128 = n as u128;
        let q: u128 = acc / cnt;
        let rem: u128 = acc % cnt;
        let up: u128 = if rem >= cnt - rem { q + 1 } else { q };
        proof {
            lemma_round_offset(sum_of(values@), n as int, lo as int, acc as int, q as int, rem as int, up as int);
            lemma_mean_within(values@);
        }
        ret.avg = (lo as i128 + up as i128) as i64;
        Some(ret)
    }
}

/// The running minimum lies at or below every reading.
pub proof fn lemma_min_le(s: Seq<i64>, j: int)
    requires
        0 <= j < s.len(),
    ensures
        min_of(s) <= s[j],
    decreases s.len(),
{
    if j < s.len() - 1 {
        lemma_min_le(s.drop_last(), j);
    }
}

/// The sum of `n` readings lies between `n` times their minimum and `n` times
/// their maximum.
proof fn lemma_sum_bounds(s: Seq<i64>)
    requires
        s.len() > 0,
    ensures
        s.len() * min_of(s) <= sum_of(s) <= s.len() * max_of(s),
    decreases s.len(),
{
    let t = s.drop_last();
    let n = s.len() as int;
    assert(sum_of(s) == sum_of(t) + s.last());
    if t.len() == 0 {
        assert(sum_of(t) == 0);
        assert(min_of(t) == i64::MAX && max_of(t) == i64::MIN);
        assert(min_of(s) == s.last() && max_of(s) == s.last());
        assert(n == 1);
        assert(n * min_of(s) == min_of(s) && n * max_of(s) == max_of(s)) by (nonlinear_arith)
            requires n == 1;
    } else {
        lemma_sum_bounds(t);
        let (a, b, x) = (min_of(t), max_of(t), s.last() as int);
        let (lo, hi, sm) = (min_of(s), max_of(s), sum_of(t));
        assert(lo <= a && lo <= x && hi >= b && hi >= x);
        assert((n - 1) * lo <= (n - 1) * a) by (nonlinear_arith)
            requires lo <= a, n >= 1;
        assert((n - 1) * b <= (n - 1) * hi) by (nonlinear_arith)
            requires b <= hi, n >= 1;
        assert(n * lo == (n - 1) * lo + lo) by (nonlinear_arith);
        assert(n * hi == (n - 1) * hi + hi) by (nonlinear_arith);
        assert(n * lo <= sum_of(s));
        assert(sum_of(s) <= n * hi);
    }
}

/// Rounding the mean of offsets above `lo`, done on `q` and `rem`, gives the
/// rounded mean less `lo`.
proof fn lemma_round_offset(sum: int, n: int, lo: int, acc: int, q: int, rem: int, up: int)
    requires
        n > 0,
        acc == sum - n * lo,
        q == acc / n,
        rem == acc % n,
        up == (if rem >= n - rem { q + 1 } else { q }),
    ensures
        up + lo == round_div(sum, n),
{
    lemma_fundamental_div_mod(acc, n);
    let t = 2 * sum + n;
    if rem >= n - rem {
        assert(t == (up + lo) * (2 * n) + (2 * rem - n)) by (nonlinear_arith)
            requires t == 2 * sum + n, acc == sum - n * lo, acc == n * q + rem, up == q + 1;
        lemma_fundamental_div_mod_converse(t, 2 * n, up + lo, 2 * rem - n);
    } else {
        assert(t == (up + lo) * (2 * n) + (2 * rem + n)) by (nonlinear_arith)
            requires t == 2 * sum + n, acc == sum - n * lo, acc == n * q + rem, up == q;
        lemma_fundamental_div_mod_converse(t, 2 * n, up + lo, 2 * rem + n);
    }
}

/// The rounded mean of a non-empty run of readings lies between their
/// minimum and their maximum.
pub proof fn lemma_mean_within(s: Seq<i64>)
    requires
        s.len() > 0,
    ensures
        min_of(s) <= mean_of(s) <= max_of(s),
{
    lemma_sum_bounds(s);
    let n = s.len() as int;
    let (lo, hi, sm) = (min_of(s), max_of(s), sum_of(s));
    let t = 2 * sm + n;
    let d = 2 * n;
    lemma_fundamental_div_mod(t, d);
    let q = t / d;
    let r = t % d;
    assert(lo <= q) by (nonlinear_arith)
        requires t == d * q + r, 0 <= r < d, d == 2 * n, n > 0, t == 2 * sm + n, n * lo <= sm;
    assert(q <= hi) by (nonlinear_arith)
        requires t == d * q + r, 0 <= r < d, d == 2 * n, n > 0, t == 2 * sm + n, sm <= n * hi;
}

/// Statistics of a non-empty run of readings: the mean lies between the
/// minimum and the maximum.
pub proof fn stats_avg_between(values: Seq<i64>, st: Stats)
    requires
        values.len() > 0,
        st.describes(values),
    ensures
        st.min <= st.avg <= st.max,
{
    lemma_mean_within(values);
}

/// Statistics of a single reading `x`: minimum, maximum and mean are all `x`,
/// and the count is one.
pub proof fn stats_of_single(x: i64, st: Stats)
    requires
        st.describes(seq![x]),
    ensures
        st.min == x,
        st.max == x,
        st.avg == x,
        st.count == 1,
{
    let s = seq![x];
    assert(s.drop_last() =~= Seq::<i64>::empty());
    assert(s.last() == x);
    assert(sum_of(s.drop_last()) == 0);
    assert(sum_of(s) == x);
    assert(min_of(s.drop_last()) == i64::MAX);
    assert(max_of(s.drop_last()) == i64::MIN);
    assert(round_div(x as int, 1) == x) by {
        lemma_fundamental_div_mod_converse(2 * x + 1, 2, x as int, 1);
    }
}

} // verus!
