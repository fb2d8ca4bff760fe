//! What the player chooses for the rounds: where places are drawn around,
//! how far out, and how populous.
use crate::cities::push_char;
use crate::geo::{AngleUnit, Coord, ANGLE_SCALE};
use vstd::prelude::*;

verus! {

/// The decimal digit `d`, for `0 <= d < 10`.
pub open spec fn digit_char(d: int) -> char {
    seq!['0', '1', '2', '3', '4', '5', '6', '7', '8', '9'][d]
}

/// `n` in decimal, without leading zeros.
pub open spec fn digits_of(n: nat) -> Seq<char>
    decreases n,
{
    if n < 10 {
        seq![digit_char(n as int)]
    } else {
        digits_of(n / 10).push(digit_char((n % 10) as int))
    }
}

/// The last `w` decimal digits of `f`, leading zeros included.
pub open spec fn padded(f: nat, w: nat) -> Seq<char>
    decreases w,
{
    if w == 0 {
        Seq::empty()
    } else {
        padded(f / 10, (w - 1) as nat).push(digit_char((f % 10) as int))
    }
}

/// `f`, read as `w` digits, without its trailing zeros: the digits left and
/// their count.
pub open spec fn strip_zeros(f: nat, w: nat) -> (nat, nat)
    decreases w,
{
    if w > 0 && f % 10 == 0 {
        strip_zeros(f / 10, (w - 1) as nat)
    } else {
        (f, w)
    }
}

/// A stored angle as a decimal number of its unit: sign, whole part, and the
/// fraction without trailing zeros (no point when the fraction is zero).
pub open spec fn decimal_text(x: int) -> Seq<char> {
    let m = if x < 0 { -x } else { x };
    let sign = if x < 0 { seq!['-'] } else { Seq::empty() };
    let (f, w) = strip_zeros((m % (ANGLE_SCALE as int)) as nat, 15);
    sign + digits_of((m / (ANGLE_SCALE as int)) as nat) + if w == 0 {
        Seq::empty()
    } else {
        seq!['.'] + padded(f, w)
    }
}

/// The point in well-known text: `POINT(<longitude> <latitude>)`.
pub open spec fn wkt_point(c: Coord) -> Seq<char> {
    "POINT("@ + decimal_text(c.longitude as int) + " "@ + decimal_text(c.latitude as int) + ")"@
}

fn digit_of(d: u128) -> (c: char)
    requires
        d < 10,
    ensures
        c == digit_char(d as int),
{
    let digits = ['0', '1', '2', '3', '4', '5', '6', '7', '8', '9'];
    proof {
        assert(digits@ == seq!['0', '1', '2', '3', '4', '5', '6', '7', '8', '9']);
    }
    digits[d as usize]
}

fn push_digits(s: &mut String, n: u128)
    ensures
        final(s)@ == old(s)@ + digits_of(n as nat),
    decreases n,
{
    if n >= 10 {
        push_digits(s, n / 10);
    }
    push_char(s, digit_of(n % 10));
    proof {
        if n >= 10 {
            assert(old(s)@ + digits_of(n as nat) == old(s)@ + digits_of((n / 10) as nat) + seq![digit_char((n % 10) as int)]);
        }
    }
}

fn push_padded(s: &mut String, f: u128, w: u128)
    ensures
        final(s)@ == old(s)@ + padded(f as nat, w as nat),
    decreases w,
{
    if w > 0 {
        push_padded(s, f / 10, w - 1);
        push_char(s, digit_of(f % 10));
        assert(old(s)@ + padded(f as nat, w as nat) == old(s)@ + padded((f / 10) as nat, (w - 1) as nat) + seq![digit_char((f % 10) as int)]);
    } else {
        assert(old(s)@ + padded(f as nat, w as nat) == old(s)@);
    }
}

fn strip_trailing_zeros(f: u128, w: u128) -> (r: (u128, u128))
    ensures
        (r.0 as nat, r.1 as nat) == strip_zeros(f as nat, w as nat),
    decreases w,
{
    if w > 0 && f % 10 == 0 {
        strip_trailing_zeros(f / 10, w - 1)
    } else {
        (f, w)
    }
}

fn push_decimal(s: &mut String, x: i128)
    ensures
        final(s)@ == old(s)@ + decimal_text(x as int),
{
    let ghost start = s@;
    let m: u128 = if x < 0 { (-1 - x) as u128 + 1 } else { x as u128 };
    if x < 0 {
        push_char(s, '-');
    }
    let ghost signed = s@;
    push_digits(s, m / ANGLE_SCALE as u128);
    let ghost whole = s@;
    let (f, w) = strip_trailing_zeros(m % ANGLE_SCALE as u128, 15);
    if w > 0 {
        push_char(s, '.');
        push_padded(s, f, w);
    }
    proof {
        let sign = if x < 0 { seq!['-'] } else { Seq::<char>::empty() };
        assert(signed == start + sign);
        let tail = if w == 0 { Seq::<char>::empty() } else { seq!['.'] + padded(f as nat, w as nat) };
        assert(s@ == whole + tail);
        assert(start + decimal_text(x as int) == start + sign + digits_of((m / ANGLE_SCALE as u128) as nat) + tail);
    }
}

/// Centre of the default search area (Berlin), in `ANGLE_SCALE`ths of a degree.
pub const DEFAULT_LATITUDE: i128 = 52_520_332_000_000_000;

/// See `DEFAULT_LATITUDE`.
pub const DEFAULT_LONGITUDE: i128 = 13_398_326_000_000_000;

/// Default search radius, in metres.
pub const DEFAULT_RADIUS: u64 = 2_000_000;

/// Default least population of a place.
pub const DEFAULT_MIN_POPULATION: i32 = 1_000_000;

#[derive(Clone, Copy, Debug, PartialEq, Eq, Structural)]
pub struct Settings {
    /// Centre of the area that places are drawn from.
    pub point: Coord,
    /// Radius of that area, in metres; it also normalises the score.
    pub radius: u64,
    pub min_population: i32,
}

impl Settings {
    pub fn new(point: Coord, radius: u64, min_population: i32) -> (r: Settings)
        ensures
            r == (Settings { point, radius, min_population }),
    {
        Settings { point, radius, min_population }
    }

    /// The centre of the search area in well-known text, as the city source
    /// takes it.
    pub fn point_wkt(&self) -> (r: String)
        ensures
            r@ == wkt_point(self.point),
    {
        let mut r = String::from_str("POINT(");
        push_decimal(&mut r, self.point.longitude);
        push_char(&mut r, ' ');
        push_decimal(&mut r, self.point.latitude);
        push_char(&mut r, ')');
        proof {
            reveal_strlit("POINT(");
            reveal_strlit(" ");
            reveal_strlit(")");
        }
        r
    }

    /// The settings a session starts with: a 2000 km radius around Berlin,
    /// places of at least a million people.
    pub open spec fn spec_default() -> Settings {
        Settings {
            point: Coord {
                latitude: DEFAULT_LATITUDE,
                longitude: DEFAULT_LONGITUDE,
                type_: AngleUnit::Degrees,
            },
            radius: DEFAULT_RADIUS,
            min_population: DEFAULT_MIN_POPULATION,
        }
    }
}

impl Default for Settings {
    fn default() -> (r: Settings)
        ensures
            r == Settings::spec_default(),
    {
        Settings::new(
            Coord::new(DEFAULT_LATITUDE, DEFAULT_LONGITUDE),
            DEFAULT_RADIUS,
            DEFAULT_MIN_POPULATION,
        )
    }
}

} // verus!
