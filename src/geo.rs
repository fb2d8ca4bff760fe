//! Coordinates with an explicit angle unit, and the guess scoring rule.
//!
//! Distances are whole metres; a score is counted in thousandths of a point,
//! so a perfect guess scores `FULL_SCORE` (100 points).
//!
//! Angles are fixed-point integers: a stored value `v` stands for
//! `v / ANGLE_SCALE` of the coordinate's unit (degrees or radians).
use vstd::prelude::*;

verus! {

/// A stored angle `v` stands for `v / ANGLE_SCALE` units.
pub const ANGLE_SCALE: i128 = 1_000_000_000_000_000;

/// π is taken as `PI_NUM / PI_DEN`.
pub const PI_NUM: u128 = 3_141_592_653_589_793;

/// See `PI_NUM`.
pub const PI_DEN: u128 = 1_000_000_000_000_000;

/// Greatest distance, in stored units, between an angle in degrees and the
/// same angle after a trip to radians and back.
pub const DEGREE_ROUND_TRIP_SLACK: i128 = 29;

#[derive(Clone, Copy, Debug, PartialEq, Eq, Structural, Default)]
pub enum AngleUnit {
    #[default]
    Degrees,
    Radians,
}

/// A geographic point. Its unit is part of its value.
#[derive(Clone, Copy, Debug, PartialEq, Eq, Structural, Default)]
pub struct Coord {
    pub latitude: i128,
    pub longitude: i128,
    pub type_: AngleUnit,
}

/// `a / b` rounded to the nearest integer, halves away from zero.
pub open spec fn round_div(a: int, b: int) -> int {
    if a >= 0 {
        (2 * a + b) / (2 * b)
    } else {
        -((-2 * a + b) / (2 * b))
    }
}

/// A stored angle in degrees, converted to radians.
pub open spec fn deg_to_rad(d: int) -> int {
    round_div(d * PI_NUM, 180 * PI_DEN)
}

/// A stored angle in radians, converted to degrees.
pub open spec fn rad_to_deg(r: int) -> int {
    round_div(r * 180 * PI_DEN, PI_NUM as int)
}

pub open spec fn fits_i128(x: int) -> bool {
    i128::MIN <= x <= i128::MAX
}

impl Coord {
    /// Whether converting this coordinate to the other unit stays within `i128`.
    /// Degrees to radians always does.
    pub open spec fn can_change_unit(self) -> bool {
        self.type_ == AngleUnit::Radians ==> {
            &&& fits_i128(rad_to_deg(self.latitude as int))
            &&& fits_i128(rad_to_deg(self.longitude as int))
        }
    }

    /// The coordinate in the other unit.
    pub open spec fn changed_unit(self) -> Coord {
        match self.type_ {
            AngleUnit::Degrees => Coord {
                latitude: deg_to_rad(self.latitude as int) as i128,
                longitude: deg_to_rad(self.longitude as int) as i128,
                type_: AngleUnit::Radians,
            },
            AngleUnit::Radians => Coord {
                latitude: rad_to_deg(self.latitude as int) as i128,
                longitude: rad_to_deg(self.longitude as int) as i128,
                type_: AngleUnit::Degrees,
            },
        }
    }

    /// A point given in degrees. The range is not checked.
    pub fn new(latitude: i128, longitude: i128) -> (r: Coord)
        ensures
            r == (Coord { latitude, longitude, type_: AngleUnit::Degrees }),
    {
        Coord { latitude, longitude, type_: AngleUnit::Degrees }
    }

    /// Converts both components to the other unit and flips the unit tag.
    pub fn change_unit(&self) -> (r: Coord)
        requires
            self.can_change_unit(),
        ensures
            r == self.changed_unit(),
    {
        match self.type_ {
            AngleUnit::Degrees => Coord {
                latitude: degrees_to_radians(self.latitude),
                longitude: degrees_to_radians(self.longitude),
                type_: AngleUnit::Radians,
            },
            AngleUnit::Radians => Coord {
                latitude: radians_to_degrees(self.latitude),
                longitude: radians_to_degrees(self.longitude),
                type_: AngleUnit::Degrees,
            },
        }
    }
}

proof fn lemma_round_div_bounds(a: int, b: int)
    requires
        b > 0,
    ensures
        -b <= 2 * a - 2 * b * round_div(a, b) <= b,
{
    let n = if a >= 0 { 2 * a + b } else { -2 * a + b };
    let q = n / (2 * b);
    vstd::arithmetic::div_mod::lemma_fundamental_div_mod(n, 2 * b);
    vstd::arithmetic::div_mod::lemma_remainder(n, 2 * b);
    assert(0 <= n - 2 * b * q < 2 * b);
    if a >= 0 {
        assert(round_div(a, b) == q);
    } else {
        assert(round_div(a, b) == -q);
        assert(2 * b * round_div(a, b) == -(2 * b * q)) by (nonlinear_arith)
            requires round_div(a, b) == -q;
    }
}

proof fn lemma_deg_to_rad_shrinks(d: int)
    ensures
        d >= 0 ==> 0 <= deg_to_rad(d) <= d,
        d < 0 ==> d <= deg_to_rad(d) <= 0,
{
    let a = d * PI_NUM;
    let q = deg_to_rad(d);
    lemma_round_div_bounds(a, 180 * PI_DEN);
    assert(d >= 0 ==> 0 <= q <= d) by (nonlinear_arith)
        requires
            a == d * 3_141_592_653_589_793,
            -180_000_000_000_000_000 <= 2 * a - 360_000_000_000_000_000 * q,
            2 * a - 360_000_000_000_000_000 * q <= 180_000_000_000_000_000;
    assert(d < 0 ==> d <= q <= 0) by (nonlinear_arith)
        requires
            a == d * 3_141_592_653_589_793,
            -180_000_000_000_000_000 <= 2 * a - 360_000_000_000_000_000 * q,
            2 * a - 360_000_000_000_000_000 * q <= 180_000_000_000_000_000;
}

proof fn lemma_deg_rad_deg(d: int)
    ensures
        -DEGREE_ROUND_TRIP_SLACK <= rad_to_deg(deg_to_rad(d)) - d <= DEGREE_ROUND_TRIP_SLACK,
{
    let r = deg_to_rad(d);
    let e = rad_to_deg(r);
    lemma_round_div_bounds(d * PI_NUM, 180 * PI_DEN);
    lemma_round_div_bounds(r * 180 * PI_DEN, PI_NUM as int);
    assert(-29 <= e - d <= 29) by (nonlinear_arith)
        requires
            -180_000_000_000_000_000 <= 2 * (d * 3_141_592_653_589_793) - 360_000_000_000_000_000 * r,
            2 * (d * 3_141_592_653_589_793) - 360_000_000_000_000_000 * r <= 180_000_000_000_000_000,
            -3_141_592_653_589_793 <= 2 * (r * 180 * 1_000_000_000_000_000) - 6_283_185_307_179_586 * e,
            2 * (r * 180 * 1_000_000_000_000_000) - 6_283_185_307_179_586 * e <= 3_141_592_653_589_793;
}

proof fn lemma_rad_deg_rad(r: int)
    ensures
        deg_to_rad(rad_to_deg(r)) == r,
{
    let d = rad_to_deg(r);
    let q = deg_to_rad(d);
    lemma_round_div_bounds(r * 180 * PI_DEN, PI_NUM as int);
    lemma_round_div_bounds(d * PI_NUM, 180 * PI_DEN);
    assert(q == r) by (nonlinear_arith)
        requires
            -180_000_000_000_000_000 <= 2 * (d * 3_141_592_653_589_793) - 360_000_000_000_000_000 * q,
            2 * (d * 3_141_592_653_589_793) - 360_000_000_000_000_000 * q <= 180_000_000_000_000_000,
            -3_141_592_653_589_793 <= 2 * (r * 180 * 1_000_000_000_000_000) - 6_283_185_307_179_586 * d,
            2 * (r * 180 * 1_000_000_000_000_000) - 6_283_185_307_179_586 * d <= 3_141_592_653_589_793;
}

/// Converting a coordinate to the other unit and back gives the coordinate
/// again: exactly when it started in radians, and within
/// `DEGREE_ROUND_TRIP_SLACK` stored units per component when it started in
/// degrees.
pub proof fn lemma_change_unit_round_trip(c: Coord)
    requires
        c.can_change_unit(),
        c.changed_unit().can_change_unit(),
    ensures
        c.changed_unit().changed_unit().type_ == c.type_,
        c.type_ == AngleUnit::Radians ==> c.changed_unit().changed_unit() == c,
        c.type_ == AngleUnit::Degrees ==> {
            let back = c.changed_unit().changed_unit();
            &&& -DEGREE_ROUND_TRIP_SLACK <= back.latitude - c.latitude <= DEGREE_ROUND_TRIP_SLACK
            &&& -DEGREE_ROUND_TRIP_SLACK <= back.longitude - c.longitude <= DEGREE_ROUND_TRIP_SLACK
        },
{
    match c.type_ {
        AngleUnit::Degrees => {
            lemma_deg_to_rad_shrinks(c.latitude as int);
            lemma_deg_to_rad_shrinks(c.longitude as int);
            lemma_deg_rad_deg(c.latitude as int);
            lemma_deg_rad_deg(c.longitude as int);
        },
        AngleUnit::Radians => {
            lemma_rad_deg_rad(c.latitude as int);
            lemma_rad_deg_rad(c.longitude as int);
        },
    }
}

/// Whether a coordinate in degrees lies within latitude [-90, 90] and
/// longitude [-180, 180].
pub open spec fn in_degree_bounds(c: Coord) -> bool {
    &&& c.type_ == AngleUnit::Degrees
    &&& abs(c.latitude as int) <= 90 * ANGLE_SCALE
    &&& abs(c.longitude as int) <= 180 * ANGLE_SCALE
}

/// The same bounds for a coordinate in radians: the converted images of 90
/// and 180 degrees.
pub open spec fn in_radian_bounds(c: Coord) -> bool {
    &&& c.type_ == AngleUnit::Radians
    &&& abs(c.latitude as int) <= deg_to_rad(90 * ANGLE_SCALE)
    &&& abs(c.longitude as int) <= deg_to_rad(180 * ANGLE_SCALE)
}

proof fn lemma_deg_to_rad_abs_monotonic(d: int, bound: int)
    requires
        abs(d) <= bound,
    ensures
        abs(deg_to_rad(d)) <= deg_to_rad(bound),
{
    let b = 180 * PI_DEN;
    assert(abs(d) * PI_NUM <= bound * PI_NUM) by (nonlinear_arith)
        requires abs(d) <= bound;
    assert(abs(d) * PI_NUM == abs(d * PI_NUM)) by (nonlinear_arith);
    vstd::arithmetic::div_mod::lemma_div_is_ordered(
        2 * abs(d * PI_NUM) + b,
        2 * (bound * PI_NUM) + b,
        2 * b,
    );
    assert(abs(deg_to_rad(d)) == (2 * abs(d * PI_NUM) + b) / (2 * b));
    assert(bound * PI_NUM >= 0) by (nonlinear_arith)
        requires bound >= 0;
}

/// A coordinate within the geographic bounds in degrees converts to one
/// within the matching bounds in radians.
pub proof fn lemma_change_unit_keeps_bounds(c: Coord)
    requires
        in_degree_bounds(c),
    ensures
        in_radian_bounds(c.changed_unit()),
{
    lemma_deg_to_rad_shrinks(c.latitude as int);
    lemma_deg_to_rad_shrinks(c.longitude as int);
    lemma_deg_to_rad_abs_monotonic(c.latitude as int, 90 * ANGLE_SCALE);
    lemma_deg_to_rad_abs_monotonic(c.longitude as int, 180 * ANGLE_SCALE);
}

/// `(2 * m * num + den) / (2 * den)`, computed as `m / den` whole parts and
/// the rest, so that no intermediate value leaves `u128`.
fn round_mul_div(m: u128, num: u128, den: u128) -> (q: u128)
    requires
        0 < den <= 0x1000_0000_0000_0000,
        0 < num <= 0x1000_0000_0000_0000,
        m * num <= den * 0x8000_0000_0000_0000_0000_0000_0000_0001,
    ensures
        q == (2 * (m * num) + den) / (2 * den),
{
    let hi = m / den;
    let lo = m % den;
    assert(hi * num <= 0x8000_0000_0000_0000_0000_0000_0000_0001) by (nonlinear_arith)
        requires
            hi == m / den,
            den > 0,
            num > 0,
            m * num <= den * 0x8000_0000_0000_0000_0000_0000_0000_0001,
    {
        vstd::arithmetic::div_mod::lemma_fundamental_div_mod(m as int, den as int);
        vstd::arithmetic::div_mod::lemma_remainder(m as int, den as int);
    }
    assert(lo * num < 0x1000_0000_0000_0000 * 0x1000_0000_0000_0000) by (nonlinear_arith)
        requires lo < den, den <= 0x1000_0000_0000_0000, num <= 0x1000_0000_0000_0000;
    let part = (2 * (lo * num) + den) / (2 * den);
    assert(part <= num + 1) by (nonlinear_arith)
        requires part == (2 * (lo * num) + den) / (2 * den), lo < den, den > 0, num > 0
    {
        assert(2 * (lo * num) + den < (2 * den) * (num + 1)) by (nonlinear_arith)
            requires lo < den, den > 0, num > 0;
        vstd::arithmetic::div_mod::lemma_div_is_ordered(
            2 * (lo * num) + den,
            (2 * den) * (num + 1),
            2 * den,
        );
        vstd::arithmetic::div_mod::lemma_div_multiples_vanish((num + 1) as int, 2 * den);
    }
    proof {
        vstd::arithmetic::div_mod::lemma_fundamental_div_mod(m as int, den as int);
        assert(2 * (m * num) + den == (2 * (lo * num) + den) + (hi * num) * (2 * den))
            by (nonlinear_arith)
            requires m == den * hi + lo;
        vstd::arithmetic::div_mod::lemma_hoist_over_denominator(
            2 * (lo * num) + den,
            hi * num,
            (2 * den) as nat,
        );
    }
    hi * num + part
}

/// `round_div(x * num, den)`, for a result that fits in `i128`.
fn scale_round(x: i128, num: u128, den: u128) -> (r: i128)
    requires
        0 < den <= 0x1000_0000_0000_0000,
        0 < num <= 0x1000_0000_0000_0000,
        abs(x as int) * num <= den * 0x8000_0000_0000_0000_0000_0000_0000_0001,
        fits_i128(round_div(x * num, den as int)),
    ensures
        r == round_div(x * num, den as int),
{
    let m: u128 = if x >= 0 { x as u128 } else { (-1 - x) as u128 + 1 };
    let q = round_mul_div(m, num, den);
    if x >= 0 {
        assert(x * num == m * num);
        assert(x * num >= 0) by (nonlinear_arith)
            requires x >= 0, num > 0;
        q as i128
    } else {
        assert(-(x * num) == m * num) by (nonlinear_arith)
            requires m == -x;
        assert(-2 * (x * num) + den == 2 * (m * num) + den);
        assert(x * num < 0) by (nonlinear_arith)
            requires x < 0, num > 0;
        if q == 0 {
            0
        } else {
            -((q - 1) as i128) - 1
        }
    }
}

fn degrees_to_radians(angle: i128) -> (r: i128)
    ensures
        r == deg_to_rad(angle as int),
{
    proof {
        lemma_deg_to_rad_shrinks(angle as int);
        assert(abs(angle as int) * PI_NUM <= (180 * PI_DEN) * 0x8000_0000_0000_0000_0000_0000_0000_0001)
            by (nonlinear_arith)
            requires abs(angle as int) <= 0x8000_0000_0000_0000_0000_0000_0000_0000;
    }
    scale_round(angle, PI_NUM, 180 * PI_DEN)
}

fn radians_to_degrees(angle: i128) -> (r: i128)
    requires
        fits_i128(rad_to_deg(angle as int)),
    ensures
        r == rad_to_deg(angle as int),
{
    proof {
        assert(angle * (180 * PI_DEN) == angle * 180 * PI_DEN) by (nonlinear_arith);
        let q = rad_to_deg(angle as int);
        lemma_round_div_bounds(angle * 180 * PI_DEN, PI_NUM as int);
        assert(abs(angle as int) * (180 * PI_DEN) <= PI_NUM * 0x8000_0000_0000_0000_0000_0000_0000_0001)
            by (nonlinear_arith)
            requires
                -0x8000_0000_0000_0000_0000_0000_0000_0000 <= q <= 0x7fff_ffff_ffff_ffff_ffff_ffff_ffff_ffff,
                -3_141_592_653_589_793 <= 2 * (angle * 180 * 1_000_000_000_000_000) - 6_283_185_307_179_586 * q,
                2 * (angle * 180 * 1_000_000_000_000_000) - 6_283_185_307_179_586 * q <= 3_141_592_653_589_793;
    }
    scale_round(angle, 180 * PI_DEN, PI_NUM)
}

/// Circumference of the Earth at the equator, in metres.
pub const EARTH_CIRCUMFERENCE_M: u64 = 40_075_017;

/// The score of an exact guess: 100 points, in thousandths.
pub const FULL_SCORE: u64 = 100_000;

#[derive(Clone, Copy, Debug, PartialEq, Eq, Structural)]
pub enum ScoreError {
    /// The effective radius that normalises the score is zero.
    ZeroRadius,
}

pub open spec fn abs(x: int) -> int {
    if x < 0 {
        -x
    } else {
        x
    }
}

/// Twice the distance error at which a guess stops scoring, in metres:
/// `min(4 * radius, circumference)`, or the circumference when no radius is
/// given. (The error bound itself is `min(2 * radius, circumference / 2)`.)
pub open spec fn score_span(radius: Option<u64>) -> int {
    match radius {
        None => EARTH_CIRCUMFERENCE_M as int,
        Some(r) => if 4 * r <= EARTH_CIRCUMFERENCE_M {
            4 * r
        } else {
            EARTH_CIRCUMFERENCE_M as int
        },
    }
}

/// `FULL_SCORE * max(0, (span - 2|off_by|) / span)`, rounded down.
pub open spec fn score_of(off_by: int, span: int) -> int {
    if 2 * abs(off_by) >= span {
        0
    } else {
        FULL_SCORE * (span - 2 * abs(off_by)) / span
    }
}

/// Scores a guess that was off by `off_by` metres. The score falls linearly
/// from `FULL_SCORE` for an exact guess to 0 for an error of
/// `min(2 * radius, circumference / 2)` or more; without a radius, the
/// bound is half the circumference. A radius of zero is a configuration
/// error.
pub fn score(off_by: i64, radius: Option<u64>) -> (r: Result<u64, ScoreError>)
    ensures
        r is Err <==> radius == Some(0u64),
        r matches Ok(v) ==> v == score_of(off_by as int, score_span(radius)),
{
    let span: u64 = match radius {
        None => EARTH_CIRCUMFERENCE_M,
        Some(0) => {
            return Err(ScoreError::ZeroRadius);
        },
        Some(r) => if r > EARTH_CIRCUMFERENCE_M / 4 {
            EARTH_CIRCUMFERENCE_M
        } else {
            4 * r
        },
    };
    let off: u128 = if off_by >= 0 { off_by as u128 } else { (-(off_by as i128)) as u128 };
    let twice_off: u128 = 2 * off;
    if twice_off >= span as u128 {
        Ok(0)
    } else {
        let left: u64 = span - twice_off as u64;
        assert(FULL_SCORE * left <= FULL_SCORE * EARTH_CIRCUMFERENCE_M) by (nonlinear_arith)
            requires left <= EARTH_CIRCUMFERENCE_M;
        let v: u64 = FULL_SCORE * left / span;
        assert(v <= FULL_SCORE * left) by (nonlinear_arith)
            requires v == (FULL_SCORE * left) / (span as int), span > 0;
        Ok(v)
    }
}

/// The bounds of the scoring rule, for every radius but zero: an exact guess
/// scores `FULL_SCORE` and only an exact guess does; an error of at least
/// `min(2 * radius, circumference / 2)` scores 0; every score lies in
/// `[0, FULL_SCORE]`.
pub proof fn lemma_score_bounds(off_by: int, radius: Option<u64>)
    requires
        radius != Some(0u64),
    ensures
        score_of(0, score_span(radius)) == FULL_SCORE,
        2 * abs(off_by) >= score_span(radius) ==> score_of(off_by, score_span(radius)) == 0,
        0 <= score_of(off_by, score_span(radius)) <= FULL_SCORE,
        score_of(off_by, score_span(radius)) == FULL_SCORE <==> off_by == 0,
{
    let span = score_span(radius);
    assert(span > 0);
    vstd::arithmetic::div_mod::lemma_div_multiples_vanish(FULL_SCORE as int, span);
    assert(FULL_SCORE * span / span == FULL_SCORE) by (nonlinear_arith)
        requires span * FULL_SCORE / span == FULL_SCORE;
    if 2 * abs(off_by) < span {
        let x = FULL_SCORE * (span - 2 * abs(off_by));
        let q = x / span;
        vstd::arithmetic::div_mod::lemma_fundamental_div_mod(x, span);
        vstd::arithmetic::div_mod::lemma_remainder(x, span);
        assert(0 <= q <= FULL_SCORE) by (nonlinear_arith)
            requires
                x == span * q + x % span,
                0 <= x % span < span,
                x == FULL_SCORE * (span - 2 * abs(off_by)),
                0 <= 2 * abs(off_by) < span;
        assert(off_by != 0 ==> q < FULL_SCORE) by (nonlinear_arith)
            requires
                x == span * q + x % span,
                0 <= x % span < span,
                x == FULL_SCORE * (span - 2 * abs(off_by)),
                off_by != 0 ==> abs(off_by) > 0,
                span > 0;
    }
}

/// A larger error never scores more than a smaller one.
pub proof fn lemma_score_monotonic(smaller: int, larger: int, radius: Option<u64>)
    requires
        radius != Some(0u64),
        abs(smaller) <= abs(larger),
    ensures
        score_of(larger, score_span(radius)) <= score_of(smaller, score_span(radius)),
{
    let span = score_span(radius);
    lemma_score_bounds(smaller, radius);
    if 2 * abs(larger) < span {
        assert(FULL_SCORE * (span - 2 * abs(larger)) <= FULL_SCORE * (span - 2 * abs(smaller)))
            by (nonlinear_arith)
            requires abs(smaller) <= abs(larger);
        vstd::arithmetic::div_mod::lemma_div_is_ordered(
            FULL_SCORE * (span - 2 * abs(larger)),
            FULL_SCORE * (span - 2 * abs(smaller)),
            span,
        );
    }
}

} // verus!
