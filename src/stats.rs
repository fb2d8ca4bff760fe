//! Running statistics over the errors of a session's guesses.
use vstd::prelude::*;

verus! {

/// Which series of a session a `Stats` records.
#[derive(Clone, Copy, Debug, PartialEq, Eq, Structural, Default)]
pub enum StatsType {
    /// The signed distance errors of the guesses.
    #[default]
    Offby,
    /// The scores of the guesses.
    Normalised,
}

/// The mean is kept in `MEAN_SCALE`ths of a unit.
pub const MEAN_SCALE: u128 = 1_000_000_000;

/// Every value recorded so far, in order, with the sum of their absolute
/// values and the mean of those, in `MEAN_SCALE`ths rounded down (0 while
/// nothing is recorded).
pub struct Stats {
    wrong_by: Vec<i64>,
    running_total: u128,
    arithmetic_mean: u128,
}

pub open spec fn abs_i64(v: i64) -> int {
    if v < 0 {
        -v
    } else {
        v as int
    }
}

/// Sum of the absolute values of `s`.
pub open spec fn sum_abs(s: Seq<i64>) -> int
    decreases s.len(),
{
    if s.len() == 0 {
        0
    } else {
        sum_abs(s.drop_last()) + abs_i64(s.last())
    }
}

/// Mean of the absolute values of `s`, in `MEAN_SCALE`ths rounded down; 0
/// for no values.
pub open spec fn mean_abs(s: Seq<i64>) -> int {
    if s.len() == 0 {
        0
    } else {
        sum_abs(s) * MEAN_SCALE / (s.len() as int)
    }
}

/// Storage key of a series.
pub open spec fn stats_key(mode: StatsType) -> Seq<char> {
    match mode {
        StatsType::Offby => "yew.stats.offby"@,
        StatsType::Normalised => "yew.stats.normalised"@,
    }
}

proof fn lemma_sum_abs_bounds(s: Seq<i64>)
    ensures
        0 <= sum_abs(s) <= s.len() * 0x8000_0000_0000_0000,
    decreases s.len(),
{
    if s.len() > 0 {
        lemma_sum_abs_bounds(s.drop_last());
    }
}

/// `total * MEAN_SCALE / count`, rounded down, without leaving `u128`.
fn scaled_mean(total: u128, count: u128) -> (r: u128)
    requires
        0 < count <= 0x1_0000_0000_0000_0000,
        total <= count * 0x8000_0000_0000_0000,
    ensures
        r == total * MEAN_SCALE / (count as int),
{
    let whole = total / count;
    let rest = total % count;
    assert(whole <= 0x8000_0000_0000_0000) by (nonlinear_arith)
        requires whole == total / count, count > 0, total <= count * 0x8000_0000_0000_0000
    {
        vstd::arithmetic::div_mod::lemma_div_is_ordered(
            total as int,
            count * 0x8000_0000_0000_0000,
            count as int,
        );
        vstd::arithmetic::div_mod::lemma_div_multiples_vanish(0x8000_0000_0000_0000, count as int);
    }
    assert(rest * MEAN_SCALE < 0x1_0000_0000_0000_0000 * 1_000_000_000) by (nonlinear_arith)
        requires rest < count, count <= 0x1_0000_0000_0000_0000;
    assert(whole * MEAN_SCALE <= 0x8000_0000_0000_0000 * 1_000_000_000) by (nonlinear_arith)
        requires whole <= 0x8000_0000_0000_0000;
    let part = rest * MEAN_SCALE / count;
    assert(part <= rest * MEAN_SCALE) by (nonlinear_arith)
        requires part == rest * MEAN_SCALE / (count as int), count > 0;
    proof {
        vstd::arithmetic::div_mod::lemma_fundamental_div_mod(total as int, count as int);
        assert(total * MEAN_SCALE == rest * MEAN_SCALE + (whole * MEAN_SCALE) * count)
            by (nonlinear_arith)
            requires total == count * whole + rest;
        vstd::arithmetic::div_mod::lemma_hoist_over_denominator(
            rest * MEAN_SCALE,
            whole * MEAN_SCALE,
            count as nat,
        );
    }
    whole * MEAN_SCALE + part
}

impl View for Stats {
    type V = Seq<i64>;

    /// The recorded values, oldest first.
    closed spec fn view(&self) -> Seq<i64> {
        self.wrong_by@
    }
}

impl Stats {
    /// The total and the mean agree with the recorded values.
    pub closed spec fn wf(&self) -> bool {
        &&& self.running_total == sum_abs(self.wrong_by@)
        &&& self.arithmetic_mean == mean_abs(self.wrong_by@)
    }

    /// Statistics with nothing recorded.
    pub fn new() -> (r: Stats)
        ensures
            r.wf(),
            r@ == Seq::<i64>::empty(),
    {
        Stats { wrong_by: Vec::new(), running_total: 0, arithmetic_mean: 0 }
    }

    /// Statistics that have recorded `values`, in order.
    pub fn from_history(values: &Vec<i64>) -> (r: Stats)
        ensures
            r.wf(),
            r@ == values@,
    {
        let mut r = Stats::new();
        let mut i: usize = 0;
        while i < values.len()
            invariant
                i <= values@.len(),
                r.wf(),
                r@ == values@.subrange(0, i as int),
            decreases values@.len() - i,
        {
            r.add_guess(values[i]);
            assert(values@.subrange(0, i + 1) == values@.subrange(0, i as int).push(values@[i as int]));
            i = i + 1;
        }
        assert(values@.subrange(0, values@.len() as int) == values@);
        r
    }

    /// Records `value`: appends it, adds its absolute value to the total and
    /// recomputes the mean.
    pub fn add_guess(&mut self, value: i64)
        requires
            old(self).wf(),
        ensures
            final(self).wf(),
            final(self)@ == old(self)@.push(value),
    {
        let n = self.wrong_by.len();
        proof {
            lemma_sum_abs_bounds(self.wrong_by@);
            assert(n * 0x8000_0000_0000_0000 <= 0xffff_ffff_ffff_ffff * 0x8000_0000_0000_0000)
                by (nonlinear_arith)
                requires n <= 0xffff_ffff_ffff_ffff;
        }
        let magnitude: u128 = if value >= 0 { value as u128 } else { (-(value as i128)) as u128 };
        self.running_total = self.running_total + magnitude;
        self.wrong_by.push(value);
        let ghost h = self.wrong_by@;
        assert(h.drop_last() == old(self).wrong_by@);
        let count = self.wrong_by.len() as u128;
        proof {
            lemma_sum_abs_bounds(h);
        }
        self.arithmetic_mean = scaled_mean(self.running_total, count);
    }

    /// Records `value` as `add_guess` does, and returns the key under which
    /// the series `mode` is stored.
    pub fn store_guess(&mut self, value: i64, mode: StatsType) -> (key: String)
        requires
            old(self).wf(),
        ensures
            final(self).wf(),
            final(self)@ == old(self)@.push(value),
            key@ == stats_key(mode),
    {
        self.add_guess(value);
        Stats::get_key(mode)
    }

    /// Storage key of the series `mode`.
    pub fn get_key(mode: StatsType) -> (key: String)
        ensures
            key@ == stats_key(mode),
    {
        match mode {
            StatsType::Offby => String::from_str("yew.stats.offby"),
            StatsType::Normalised => String::from_str("yew.stats.normalised"),
        }
    }

    /// Forgets every recorded value.
    pub fn reset(&mut self)
        ensures
            final(self).wf(),
            final(self)@ == Seq::<i64>::empty(),
    {
        self.wrong_by = Vec::new();
        self.running_total = 0;
        self.arithmetic_mean = 0;
    }

    /// A copy, for display.
    pub fn snapshot(&self) -> (r: Stats)
        requires
            self.wf(),
        ensures
            r.wf(),
            r@ == self@,
    {
        Stats::from_history(&self.wrong_by)
    }

    /// The recorded values, oldest first.
    pub fn wrong_by(&self) -> (r: &Vec<i64>)
        ensures
            r@ == self@,
    {
        &self.wrong_by
    }

    /// Sum of the absolute values recorded.
    pub fn running_total(&self) -> (r: u128)
        requires
            self.wf(),
        ensures
            r == sum_abs(self@),
    {
        self.running_total
    }

    /// Mean of the absolute values recorded, rounded down; 0 when empty.
    pub fn arithmetic_mean(&self) -> (r: u128)
        requires
            self.wf(),
        ensures
            r == mean_abs(self@),
            self@.len() > 0 ==> r * self@.len() <= sum_abs(self@) * MEAN_SCALE < (r + 1)
                * self@.len(),
    {
        proof {
            if self@.len() > 0 {
                let t = sum_abs(self@) * MEAN_SCALE;
                let n = self@.len() as int;
                vstd::arithmetic::div_mod::lemma_fundamental_div_mod(t, n);
                vstd::arithmetic::div_mod::lemma_remainder(t, n);
                assert(self.arithmetic_mean * n <= t < (self.arithmetic_mean + 1) * n)
                    by (nonlinear_arith)
                    requires
                        self.arithmetic_mean == t / n,
                        t == n * (t / n) + t % n,
                        0 <= t % n < n;
            }
        }
        self.arithmetic_mean
    }

    /// Number of values recorded.
    pub fn count(&self) -> (r: usize)
        ensures
            r == self@.len(),
    {
        self.wrong_by.len()
    }
}

} // verus!
