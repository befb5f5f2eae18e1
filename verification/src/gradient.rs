//! A 101-stop color gradient.
//!
//! The stops are computed once, when the gradient is made: stop `i` is the
//! color for `i` percent. Looking a color up is a single index.
use vstd::prelude::*;
use vstd::arithmetic::div_mod::{lemma_fundamental_div_mod, lemma_mod_bound, lemma_mod_multiples_vanish};

verus! {

/// The channel `i/n` of the way from `a` to `b` in exact arithmetic,
/// rounded to the nearest integer, halves upwards:
/// `floor(a + (b - a) * i / n + 1/2)`.
pub open spec fn half_up(a: u8, b: u8, i: int, n: int) -> int {
    (2 * (a * (n - i) + b * i) + n) / (2 * n)
}

/// Where the gradient's double-precision evaluation of
/// `a + (b - a) * (i / n)`, rounded half away from zero, lands one below
/// the exact rounding: the exact value is a half, and the representation
/// error of `i / n` and of the product leaves the computed value just under
/// it. With `d = b - a` and steps of a fiftieth or a hundredth, these are all
/// such inputs; every other input gets the exact rounding.
pub open spec fn float_rounds_down(a: int, d: int, i: int, n: int) -> bool {
    ||| n == 50 && i == 27 && d == -225 && a <= 249
    ||| n == 50 && i == 29 && d == 25 && a <= 1
    ||| n == 50 && i == 35 && d == 45 && a <= 0
    ||| n == 50 && i == 35 && d == 85 && a <= 4
    ||| n == 50 && i == 35 && d == 165 && a <= 12
    ||| n == 50 && i == 35 && d == 175 && a <= 5
    ||| n == 50 && i == 41 && d == 75 && a <= 2
    ||| n == 100 && i == 29 && d == 50 && a <= 1
    ||| n == 100 && i == 35 && d == 90 && a <= 0
    ||| n == 100 && i == 35 && d == 170 && a <= 4
    ||| n == 100 && i == 41 && d == 150 && a <= 2
    ||| n == 100 && i == 54 && d == -225 && a <= 249
    ||| n == 100 && i == 55 && d == -230 && a <= 254
    ||| n == 100 && i == 55 && d == -210 && a <= 243
    ||| n == 100 && i == 55 && d == -190 && a <= 232
    ||| n == 100 && i == 55 && d == -170 && a <= 221
    ||| n == 100 && i == 55 && d == -110 && a <= 124
    ||| n == 100 && i == 55 && d == -90 && a <= 113
    ||| n == 100 && i == 55 && d == -50 && a <= 59
    ||| n == 100 && i == 57 && d == 50 && a <= 3
    ||| n == 100 && i == 57 && d == 150 && a <= 42
    ||| n == 100 && i == 58 && d == 25 && a <= 1
    ||| n == 100 && i == 69 && d == 150 && a <= 24
    ||| n == 100 && i == 70 && d == 45 && a <= 0
    ||| n == 100 && i == 70 && d == 85 && a <= 4
    ||| n == 100 && i == 70 && d == 165 && a <= 12
    ||| n == 100 && i == 70 && d == 175 && a <= 5
    ||| n == 100 && i == 81 && d == -150 && a <= 249
    ||| n == 100 && i == 82 && d == 75 && a <= 2
}

/// The channel `i/n` of the way from `a` to `b`, as the double-precision
/// interpolation `round(a + (b - a) * (i / n))` gives it: the exact value
/// rounded half up, one less where the float evaluation falls short of an
/// exact half.
pub open spec fn lerp_channel(a: u8, b: u8, i: int, n: int) -> int {
    half_up(a, b, i, n) - if float_rounds_down(a as int, b - a, i, n) {
        1int
    } else {
        0
    }
}

/// The color `i/n` of the way from `a` to `b`, channel by channel.
pub open spec fn lerp_color(a: (u8, u8, u8), b: (u8, u8, u8), i: int, n: int) -> (u8, u8, u8) {
    (
        lerp_channel(a.0, b.0, i, n) as u8,
        lerp_channel(a.1, b.1, i, n) as u8,
        lerp_channel(a.2, b.2, i, n) as u8,
    )
}

/// Stop `i` (a percentage in `0..=100`) of the gradient from `start` to
/// `end`: through `mid` at 50 when there is one, otherwise in one segment.
pub open spec fn stop_color(
    start: (u8, u8, u8),
    mid: Option<(u8, u8, u8)>,
    end: (u8, u8, u8),
    i: int,
) -> (u8, u8, u8) {
    match mid {
        Some(m) => if i <= 50 {
            lerp_color(start, m, i, 50)
        } else {
            lerp_color(m, end, i - 50, 50)
        },
        None => lerp_color(start, end, i, 100),
    }
}

/// All 101 stops of the gradient from `start` (through `mid`) to `end`.
pub open spec fn gradient_stops(
    start: (u8, u8, u8),
    mid: Option<(u8, u8, u8)>,
    end: (u8, u8, u8),
) -> Seq<(u8, u8, u8)> {
    Seq::new(101, |i: int| stop_color(start, mid, end, i))
}

/// If `lo * d <= x < (hi + 1) * d`, then `lo <= x / d <= hi`.
proof fn lemma_div_between(x: int, d: int, lo: int, hi: int)
    requires
        0 < d,
        lo * d <= x,
        x < (hi + 1) * d,
    ensures
        lo <= x / d <= hi,
{
    lemma_fundamental_div_mod(x, d);
    lemma_mod_bound(x, d);
    let q = x / d;
    let r = x % d;
    assert(lo <= q) by (nonlinear_arith)
        requires
            x == d * q + r,
            0 <= r < d,
            lo * d <= x,
            0 < d,
    ;
    assert(q <= hi) by (nonlinear_arith)
        requires
            x == d * q + r,
            0 <= r < d,
            x < (hi + 1) * d,
            0 < d,
    ;
}

/// The exactly rounded channel lies between its two ends, and equals them at
/// `i == 0` and `i == n`.
proof fn lemma_half_up(a: u8, b: u8, i: int, n: int)
    requires
        0 <= i <= n,
        0 < n,
    ensures
        a <= b ==> a <= half_up(a, b, i, n) <= b,
        b <= a ==> b <= half_up(a, b, i, n) <= a,
        i == 0 ==> half_up(a, b, i, n) == a,
        i == n ==> half_up(a, b, i, n) == b,
{
    let s = a * (n - i) + b * i;
    let x = 2 * s + n;
    let d = 2 * n;
    let lo: int = if a <= b { a as int } else { b as int };
    let hi: int = if a <= b { b as int } else { a as int };
    assert(lo * n <= s <= hi * n) by (nonlinear_arith)
        requires
            s == a * (n - i) + b * i,
            0 <= i <= n,
            lo <= a <= hi,
            lo <= b <= hi,
    ;
    lemma_scaled_bounds(s, n, lo, hi);
    lemma_div_between(x, d, lo, hi);
    if i == 0 {
        assert(s == a * n) by (nonlinear_arith)
            requires
                s == a * (n - i) + b * i,
                i == 0,
        ;
        lemma_scaled_bounds(s, n, a as int, a as int);
        lemma_div_between(x, d, a as int, a as int);
    }
    if i == n {
        assert(s == b * n) by (nonlinear_arith)
            requires
                s == a * (n - i) + b * i,
                i == n,
        ;
        lemma_scaled_bounds(s, n, b as int, b as int);
        lemma_div_between(x, d, b as int, b as int);
    }
}

/// In the half-way cases that the float evaluation rounds down, the exact
/// rounding is strictly above the lower end and the step is strictly inside
/// the segment.
proof fn lemma_rounds_down_inside(a: u8, b: u8, i: int, n: int)
    requires
        float_rounds_down(a as int, b - a, i, n),
    ensures
        0 < i < n,
        a <= b ==> a + 1 <= half_up(a, b, i, n),
        b <= a ==> b + 1 <= half_up(a, b, i, n),
{
    let d: int = b - a;
    assert(0 < i < n && ((d > 0 && 2 * d * i >= n) || (d < 0 && -2 * d * (n - i) >= n))) by {
        assert(float_rounds_down(a as int, d, i, n));
        if d > 0 {
            assert(2 * d * i >= n) by (nonlinear_arith)
                requires
                    d >= 25,
                    i >= 29,
                    n <= 100,
            ;
        }
        if d < 0 {
            assert(-2 * d * (n - i) >= n) by (nonlinear_arith)
                requires
                    d <= -50,
                    n - i >= 18,
                    n <= 100,
            ;
        }
    }
    let x = 2 * (a * (n - i) + b * i) + n;
    let m = 2 * n;
    assert(x == 2 * a * n + 2 * d * i + n) by (nonlinear_arith)
        requires
            d == b - a,
            x == 2 * (a * (n - i) + b * i) + n,
    ;
    let lo: int = if d > 0 { a + 1 } else { b + 1 };
    assert(lo * m <= x) by (nonlinear_arith)
        requires
            m == 2 * n,
            x == 2 * a * n + 2 * d * i + n,
            d == b - a,
            d > 0 ==> lo == a + 1 && 2 * d * i >= n,
            d < 0 ==> lo == b + 1 && -2 * d * (n - i) >= n,
            d != 0,
    ;
    lemma_fundamental_div_mod(x, m);
    lemma_mod_bound(x, m);
    let q = x / m;
    let r = x % m;
    assert(lo <= q) by (nonlinear_arith)
        requires
            x == m * q + r,
            0 <= r < m,
            lo * m <= x,
            0 < m,
    ;
}

/// The float evaluation only ever falls short where the exact value
/// `a + (b - a) * i / n` is a half: twice its numerator over `n` leaves a
/// remainder of exactly `n` modulo `2 * n`.
pub proof fn lemma_rounds_down_only_at_halves(a: u8, b: u8, i: int, n: int)
    requires
        float_rounds_down(a as int, b - a, i, n),
    ensures
        (2 * (a * (n - i) + b * i)) % (2 * n) == n,
{
    let d: int = b - a;
    assert(2 * (a * (n - i) + b * i) == (2 * n) * a + 2 * d * i) by (nonlinear_arith)
        requires
            d == b - a,
    ;
    lemma_mod_multiples_vanish(a as int, 2 * d * i, 2 * n);
    assert(float_rounds_down(a as int, d, i, n));
    assert((2 * d * i) % (2 * n) == n) by (nonlinear_arith)
        requires
            (n == 50 && i == 27 && d == -225) ||
                (n == 50 && i == 29 && d == 25) ||
                (n == 50 && i == 35 && d == 45) ||
                (n == 50 && i == 35 && d == 85) ||
                (n == 50 && i == 35 && d == 165) ||
                (n == 50 && i == 35 && d == 175) ||
                (n == 50 && i == 41 && d == 75) ||
                (n == 100 && i == 29 && d == 50) ||
                (n == 100 && i == 35 && d == 90) ||
                (n == 100 && i == 35 && d == 170) ||
                (n == 100 && i == 41 && d == 150) ||
                (n == 100 && i == 54 && d == -225) ||
                (n == 100 && i == 55 && d == -230) ||
                (n == 100 && i == 55 && d == -210) ||
                (n == 100 && i == 55 && d == -190) ||
                (n == 100 && i == 55 && d == -170) ||
                (n == 100 && i == 55 && d == -110) ||
                (n == 100 && i == 55 && d == -90) ||
                (n == 100 && i == 55 && d == -50) ||
                (n == 100 && i == 57 && d == 50) ||
                (n == 100 && i == 57 && d == 150) ||
                (n == 100 && i == 58 && d == 25) ||
                (n == 100 && i == 69 && d == 150) ||
                (n == 100 && i == 70 && d == 45) ||
                (n == 100 && i == 70 && d == 85) ||
                (n == 100 && i == 70 && d == 165) ||
                (n == 100 && i == 70 && d == 175) ||
                (n == 100 && i == 81 && d == -150) ||
                (n == 100 && i == 82 && d == 75),
    ;
}

/// An interpolated channel lies between its two ends, and equals them at
/// `i == 0` and `i == n`.
pub proof fn lemma_lerp_channel(a: u8, b: u8, i: int, n: int)
    requires
        0 <= i <= n,
        0 < n,
    ensures
        a <= b ==> a <= lerp_channel(a, b, i, n) <= b,
        b <= a ==> b <= lerp_channel(a, b, i, n) <= a,
        i == 0 ==> lerp_channel(a, b, i, n) == a,
        i == n ==> lerp_channel(a, b, i, n) == b,
{
    lemma_half_up(a, b, i, n);
    if float_rounds_down(a as int, b - a, i, n) {
        lemma_rounds_down_inside(a, b, i, n);
    }
}

/// From `lo * n <= s <= hi * n`, the rounding numerator `2 * s + n` lies in
/// `[lo * 2n, (hi + 1) * 2n)`.
proof fn lemma_scaled_bounds(s: int, n: int, lo: int, hi: int)
    requires
        0 < n,
        lo * n <= s <= hi * n,
    ensures
        lo * (2 * n) <= 2 * s + n,
        2 * s + n < (hi + 1) * (2 * n),
{
    assert(lo * (2 * n) == 2 * (lo * n)) by (nonlinear_arith);
    assert((hi + 1) * (2 * n) == 2 * (hi * n) + 2 * n) by (nonlinear_arith);
}

/// `c` lies, channel by channel, between `a` and `b`.
pub open spec fn color_between(c: (u8, u8, u8), a: (u8, u8, u8), b: (u8, u8, u8)) -> bool {
    &&& (a.0 <= c.0 <= b.0 || b.0 <= c.0 <= a.0)
    &&& (a.1 <= c.1 <= b.1 || b.1 <= c.1 <= a.1)
    &&& (a.2 <= c.2 <= b.2 || b.2 <= c.2 <= a.2)
}

proof fn lemma_lerp_color(a: (u8, u8, u8), b: (u8, u8, u8), i: int, n: int)
    requires
        0 <= i <= n,
        0 < n,
    ensures
        color_between(lerp_color(a, b, i, n), a, b),
        i == 0 ==> lerp_color(a, b, i, n) == a,
        i == n ==> lerp_color(a, b, i, n) == b,
{
    lemma_lerp_channel(a.0, b.0, i, n);
    lemma_lerp_channel(a.1, b.1, i, n);
    lemma_lerp_channel(a.2, b.2, i, n);
}

/// A gradient begins with `start`, passes through `mid` at 50 when there is
/// one, and ends with `end`.
pub proof fn lemma_gradient_endpoints(
    start: (u8, u8, u8),
    mid: Option<(u8, u8, u8)>,
    end: (u8, u8, u8),
)
    ensures
        gradient_stops(start, mid, end).len() == 101,
        gradient_stops(start, mid, end)[0] == start,
        gradient_stops(start, mid, end)[100] == end,
        mid matches Some(m) ==> gradient_stops(start, mid, end)[50] == m,
{
    match mid {
        Some(m) => {
            lemma_lerp_color(start, m, 0, 50);
            lemma_lerp_color(start, m, 50, 50);
            lemma_lerp_color(m, end, 50, 50);
        },
        None => {
            lemma_lerp_color(start, end, 0, 100);
            lemma_lerp_color(start, end, 100, 100);
        },
    }
}

/// Every stop lies, channel by channel, between the two colors that bound
/// its segment: `start` and `mid` up to 50, `mid` and `end` above it, or
/// `start` and `end` when there is no `mid`.
pub proof fn lemma_gradient_between(
    start: (u8, u8, u8),
    mid: Option<(u8, u8, u8)>,
    end: (u8, u8, u8),
    i: int,
)
    requires
        0 <= i <= 100,
    ensures
        match mid {
            Some(m) => if i <= 50 {
                color_between(gradient_stops(start, mid, end)[i], start, m)
            } else {
                color_between(gradient_stops(start, mid, end)[i], m, end)
            },
            None => color_between(gradient_stops(start, mid, end)[i], start, end),
        },
{
    match mid {
        Some(m) => if i <= 50 {
            lemma_lerp_color(start, m, i, 50);
        } else {
            lemma_lerp_color(m, end, i - 50, 50);
        },
        None => {
            lemma_lerp_color(start, end, i, 100);
        },
    }
}

/// One channel, interpolated in integer arithmetic.
fn lerp_u8(a: u8, b: u8, i: u32, n: u32) -> (c: u8)
    requires
        0 < n <= 100,
        i <= n,
    ensures
        c == lerp_channel(a, b, i as int, n as int),
{
    proof {
        lemma_lerp_channel(a, b, i as int, n as int);
        assert(a * (n - i) <= 255 * (n - i)) by (nonlinear_arith)
            requires
                a <= 255,
                i <= n,
        ;
        assert(b * i <= 255 * i) by (nonlinear_arith)
            requires
                b <= 255,
        ;
    }
    let s: u32 = (a as u32) * (n - i) + (b as u32) * i;
    let q: u32 = (2 * s + n) / (2 * n);
    if rounds_down(a, b, i, n) {
        proof {
            lemma_half_up(a, b, i as int, n as int);
            lemma_rounds_down_inside(a, b, i as int, n as int);
        }
        (q - 1) as u8
    } else {
        q as u8
    }
}

/// Whether the float evaluation of this step rounds an exact half down.
fn rounds_down(a: u8, b: u8, i: u32, n: u32) -> (r: bool)
    ensures
        r == float_rounds_down(a as int, b - a, i as int, n as int),
{
    let d: i32 = (b as i32) - (a as i32);
    (n == 50 && i == 27 && d == -225 && a <= 249) ||
        (n == 50 && i == 29 && d == 25 && a <= 1) ||
        (n == 50 && i == 35 && d == 45 && a <= 0) ||
        (n == 50 && i == 35 && d == 85 && a <= 4) ||
        (n == 50 && i == 35 && d == 165 && a <= 12) ||
        (n == 50 && i == 35 && d == 175 && a <= 5) ||
        (n == 50 && i == 41 && d == 75 && a <= 2) ||
        (n == 100 && i == 29 && d == 50 && a <= 1) ||
        (n == 100 && i == 35 && d == 90 && a <= 0) ||
        (n == 100 && i == 35 && d == 170 && a <= 4) ||
        (n == 100 && i == 41 && d == 150 && a <= 2) ||
        (n == 100 && i == 54 && d == -225 && a <= 249) ||
        (n == 100 && i == 55 && d == -230 && a <= 254) ||
        (n == 100 && i == 55 && d == -210 && a <= 243) ||
        (n == 100 && i == 55 && d == -190 && a <= 232) ||
        (n == 100 && i == 55 && d == -170 && a <= 221) ||
        (n == 100 && i == 55 && d == -110 && a <= 124) ||
        (n == 100 && i == 55 && d == -90 && a <= 113) ||
        (n == 100 && i == 55 && d == -50 && a <= 59) ||
        (n == 100 && i == 57 && d == 50 && a <= 3) ||
        (n == 100 && i == 57 && d == 150 && a <= 42) ||
        (n == 100 && i == 58 && d == 25 && a <= 1) ||
        (n == 100 && i == 69 && d == 150 && a <= 24) ||
        (n == 100 && i == 70 && d == 45 && a <= 0) ||
        (n == 100 && i == 70 && d == 85 && a <= 4) ||
        (n == 100 && i == 70 && d == 165 && a <= 12) ||
        (n == 100 && i == 70 && d == 175 && a <= 5) ||
        (n == 100 && i == 81 && d == -150 && a <= 249) ||
        (n == 100 && i == 82 && d == 75 && a <= 2)
}

/// The color `i/n` of the way from `a` to `b`.
fn lerp_rgb(a: (u8, u8, u8), b: (u8, u8, u8), i: u32, n: u32) -> (c: (u8, u8, u8))
    requires
        0 < n <= 100,
        i <= n,
    ensures
        c == lerp_color(a, b, i as int, n as int),
{
    (lerp_u8(a.0, b.0, i, n), lerp_u8(a.1, b.1, i, n), lerp_u8(a.2, b.2, i, n))
}


/// A precomputed gradient of 101 stops: stop `i` is the color for `i`
/// percent.
#[derive(Debug)]
pub struct ColorGradient {
    stops: [(u8, u8, u8); 101],
}

impl View for ColorGradient {
    type V = Seq<(u8, u8, u8)>;

    closed spec fn view(&self) -> Seq<(u8, u8, u8)> {
        self.stops@
    }
}

impl ColorGradient {
    /// Every gradient has 101 stops.
    pub proof fn lemma_len(&self)
        ensures
            self@.len() == 101,
    {
    }

    /// The gradient from `start` to `end`, through `mid` at 50% when given.
    pub fn new(start: (u8, u8, u8), mid: Option<(u8, u8, u8)>, end: (u8, u8, u8)) -> (g: Self)
        ensures
            g@ == gradient_stops(start, mid, end),
    {
        let mut stops = [(0u8, 0u8, 0u8); 101];
        match mid {
            Some(m) => {
                let mut i: usize = 0;
                while i <= 50
                    invariant
                        i <= 51,
                        mid == Some(m),
                        forall|j: int| 0 <= j < i ==> stops@[j] == stop_color(start, mid, end, j),
                    decreases 51 - i,
                {
                    stops[i] = lerp_rgb(start, m, i as u32, 50);
                    i = i + 1;
                }
                while i <= 100
                    invariant
                        51 <= i <= 101,
                        mid == Some(m),
                        forall|j: int| 0 <= j < i ==> stops@[j] == stop_color(start, mid, end, j),
                    decreases 101 - i,
                {
                    stops[i] = lerp_rgb(m, end, (i - 50) as u32, 50);
                    i = i + 1;
                }
            },
            None => {
                let mut i: usize = 0;
                while i <= 100
                    invariant
                        i <= 101,
                        mid.is_none(),
                        forall|j: int| 0 <= j < i ==> stops@[j] == stop_color(start, mid, end, j),
                    decreases 101 - i,
                {
                    stops[i] = lerp_rgb(start, end, i as u32, 100);
                    i = i + 1;
                }
            },
        }
        assert(stops@ =~= gradient_stops(start, mid, end));
        ColorGradient { stops }
    }

    /// The gradient of `theme` in btop's palette.
    pub fn from_theme(theme: GradientTheme) -> (g: Self)
        ensures
            g@ == theme_gradient(theme, ColorPalette::Btop),
    {
        Self::from_palette(theme, ColorPalette::Btop)
    }

    /// The gradient of `theme` in `palette`: its start, mid and end colors.
    pub fn from_palette(theme: GradientTheme, palette: ColorPalette) -> (g: Self)
        ensures
            g@ == theme_gradient(theme, palette),
    {
        let (start, mid, end) = palette.colors(theme);
        Self::new(start, Some(mid), end)
    }

    /// The color for `value` percent; values above 100 give the last stop.
    pub fn at(&self, value: u8) -> (c: (u8, u8, u8))
        ensures
            c == self@[if value <= 100 { value as int } else { 100 }],
    {
        let i: u8 = if value <= 100 { value } else { 100 };
        self.stops[i as usize]
    }
}

impl Clone for ColorGradient {
    fn clone(&self) -> (g: Self)
        ensures
            g@ == self@,
    {
        ColorGradient { stops: self.stops }
    }
}

impl Default for ColorGradient {
    /// The CPU gradient: green through yellow to red.
    fn default() -> (g: Self)
        ensures
            g@ == theme_gradient(GradientTheme::Cpu, ColorPalette::Btop),
    {
        Self::from_theme(GradientTheme::Cpu)
    }
}

/// The stops of `theme` in `palette`.
pub open spec fn theme_gradient(theme: GradientTheme, palette: ColorPalette) -> Seq<(u8, u8, u8)> {
    let c = palette_colors(palette, theme);
    gradient_stops(c.0, Some(c.1), c.2)
}

/// The color palette a graph is drawn in.
#[derive(Debug, Clone, Copy, PartialEq, Eq, Structural)]
pub enum ColorPalette {
    /// btop's default theme gradients.
    Btop,
    /// 80's synthwave: neon cyan, magenta, and sunset tones.
    Synthwave,
    /// CRT terminal: phosphor green, amber, and alert red.
    Hacker,
    /// Early Mac OS X: Bondi blue, sky aqua, and pearl highlights.
    Aqua,
}

impl Default for ColorPalette {
    fn default() -> (p: Self)
        ensures
            p == ColorPalette::Btop,
    {
        ColorPalette::Btop
    }
}

/// The (start, mid, end) colors of `theme` in `palette`.
pub open spec fn palette_colors(palette: ColorPalette, theme: GradientTheme) -> (
    (u8, u8, u8),
    (u8, u8, u8),
    (u8, u8, u8),
) {
    match palette {
        ColorPalette::Btop => btop_table(theme),
        ColorPalette::Synthwave => synthwave_table(theme),
        ColorPalette::Hacker => hacker_table(theme),
        ColorPalette::Aqua => aqua_table(theme),
    }
}

impl ColorPalette {
    /// The (start, mid, end) colors of `theme` in this palette.
    pub fn colors(self, theme: GradientTheme) -> (c: ((u8, u8, u8), (u8, u8, u8), (u8, u8, u8)))
        ensures
            c == palette_colors(self, theme),
    {
        match self {
            ColorPalette::Btop => theme.btop_colors(),
            ColorPalette::Synthwave => theme.synthwave_colors(),
            ColorPalette::Hacker => theme.hacker_colors(),
            ColorPalette::Aqua => theme.aqua_colors(),
        }
    }
}

/// What a gradient is for; each palette gives every theme its own colors.
#[derive(Debug, Clone, Copy, PartialEq, Eq, Structural)]
pub enum GradientTheme {
    /// Green → Yellow → Red
    Cpu,
    /// Blue → Purple → Pink
    Temp,
    /// Dark green → Bright green → Bright yellow
    Free,
    /// Dark blue → Cyan → Bright blue
    Cached,
    /// Dark yellow → Warm → Amber
    Available,
    /// Dark red → Rose → Bright red
    Used,
    /// Deep blue → Medium blue → Light blue
    Download,
    /// Dark purple → Medium purple → Light purple
    Upload,
    /// Green → Yellow → Red (process variant)
    Process,
}

/// btop's default theme: the (start, mid, end) colors of each theme.
pub open spec fn btop_table(theme: GradientTheme) -> ((u8, u8, u8), (u8, u8, u8), (u8, u8, u8)) {
    match theme {
        GradientTheme::Cpu => ((0x77, 0xca, 0x9b), (0xcb, 0xc0, 0x6c), (0xdc, 0x4c, 0x4c)),
        GradientTheme::Temp => ((0x48, 0x97, 0xd4), (0x54, 0x74, 0xe8), (0xff, 0x40, 0xb6)),
        GradientTheme::Free => ((0x38, 0x4f, 0x21), (0xb5, 0xe6, 0x85), (0xdc, 0xff, 0x85)),
        GradientTheme::Cached => ((0x16, 0x33, 0x50), (0x74, 0xe6, 0xfc), (0x26, 0xc5, 0xff)),
        GradientTheme::Available => ((0x4e, 0x3f, 0x0e), (0xff, 0xd7, 0x7a), (0xff, 0xb8, 0x14)),
        GradientTheme::Used => ((0x59, 0x2b, 0x26), (0xd9, 0x62, 0x6d), (0xff, 0x47, 0x69)),
        GradientTheme::Download => ((0x29, 0x1f, 0x75), (0x4f, 0x43, 0xa3), (0xb0, 0xa9, 0xde)),
        GradientTheme::Upload => ((0x62, 0x06, 0x65), (0x7d, 0x41, 0x80), (0xdc, 0xaf, 0xde)),
        GradientTheme::Process => ((0x80, 0xd0, 0xa3), (0xdc, 0xd1, 0x79), (0xd4, 0x54, 0x54)),
    }
}

/// The synthwave palette: the (start, mid, end) colors of each theme.
pub open spec fn synthwave_table(theme: GradientTheme) -> ((u8, u8, u8), (u8, u8, u8), (u8, u8, u8)) {
    match theme {
        GradientTheme::Cpu => ((0x05, 0xd9, 0xe8), (0xd3, 0x00, 0xc5), (0xff, 0x2a, 0x6d)),
        GradientTheme::Temp => ((0x2b, 0x0b, 0x3f), (0xff, 0x00, 0xff), (0x05, 0xd9, 0xe8)),
        GradientTheme::Free => ((0x1a, 0x05, 0x33), (0x00, 0xf0, 0xff), (0xff, 0x6e, 0xc7)),
        GradientTheme::Cached => ((0x24, 0x00, 0x46), (0x43, 0x61, 0xee), (0x4c, 0xc9, 0xf0)),
        GradientTheme::Available => ((0x5c, 0x00, 0x4d), (0xff, 0x6b, 0x35), (0xff, 0xd6, 0x0a)),
        GradientTheme::Used => ((0x3d, 0x0c, 0x44), (0xff, 0x00, 0x6e), (0xff, 0x0a, 0x54)),
        GradientTheme::Download => ((0x10, 0x00, 0x2b), (0x7b, 0x2c, 0xbf), (0x00, 0xb4, 0xd8)),
        GradientTheme::Upload => ((0x4a, 0x04, 0x4e), (0xff, 0x0a, 0x81), (0x72, 0xef, 0xdd)),
        GradientTheme::Process => ((0x0a, 0xff, 0x99), (0xd9, 0x00, 0xff), (0xff, 0x2a, 0x6d)),
    }
}

/// The CRT-terminal palette: the (start, mid, end) colors of each theme.
pub open spec fn hacker_table(theme: GradientTheme) -> ((u8, u8, u8), (u8, u8, u8), (u8, u8, u8)) {
    match theme {
        GradientTheme::Cpu => ((0x00, 0x2b, 0x00), (0x00, 0xb3, 0x00), (0x39, 0xff, 0x14)),
        GradientTheme::Temp => ((0x1a, 0x12, 0x00), (0xcc, 0x77, 0x00), (0xff, 0xcc, 0x00)),
        GradientTheme::Free => ((0x00, 0x1a, 0x0a), (0x00, 0x99, 0x44), (0x00, 0xff, 0x88)),
        GradientTheme::Cached => ((0x00, 0x16, 0x20), (0x00, 0x77, 0x99), (0x00, 0xe5, 0xff)),
        GradientTheme::Available => ((0x1a, 0x10, 0x00), (0xaa, 0x77, 0x00), (0xff, 0xbb, 0x33)),
        GradientTheme::Used => ((0x1a, 0x00, 0x00), (0xcc, 0x11, 0x00), (0xff, 0x22, 0x44)),
        GradientTheme::Download => ((0x00, 0x1a, 0x2b), (0x00, 0x66, 0x99), (0x00, 0xcc, 0xff)),
        GradientTheme::Upload => ((0x1a, 0x00, 0x22), (0x77, 0x00, 0xaa), (0xbb, 0x44, 0xff)),
        GradientTheme::Process => ((0x00, 0x22, 0x00), (0x00, 0xaa, 0x44), (0x66, 0xff, 0x99)),
    }
}

/// The early Mac OS X palette: the (start, mid, end) colors of each theme.
pub open spec fn aqua_table(theme: GradientTheme) -> ((u8, u8, u8), (u8, u8, u8), (u8, u8, u8)) {
    match theme {
        GradientTheme::Cpu => ((0x00, 0x66, 0x66), (0xff, 0xc1, 0x50), (0xff, 0x5f, 0x57)),
        GradientTheme::Temp => ((0x00, 0x33, 0x55), (0x00, 0x93, 0xcb), (0x87, 0xce, 0xfa)),
        GradientTheme::Free => ((0x00, 0x44, 0x44), (0x40, 0xc0, 0xc0), (0xaf, 0xff, 0xe6)),
        GradientTheme::Cached => ((0x00, 0x22, 0x44), (0x00, 0x66, 0xcc), (0x99, 0xcc, 0xff)),
        GradientTheme::Available => ((0x44, 0x55, 0x66), (0xb4, 0xc8, 0xdc), (0xff, 0xf8, 0xdc)),
        GradientTheme::Used => ((0x44, 0x22, 0x33), (0xcc, 0x66, 0x80), (0xff, 0x66, 0x66)),
        GradientTheme::Download => ((0x00, 0x22, 0x33), (0x00, 0x93, 0xcb), (0x66, 0xd9, 0xff)),
        GradientTheme::Upload => ((0x33, 0x22, 0x55), (0x80, 0x66, 0xcc), (0xcc, 0xb3, 0xff)),
        GradientTheme::Process => ((0x00, 0x44, 0x55), (0x00, 0x99, 0xb4), (0x66, 0xff, 0xe6)),
    }
}

impl GradientTheme {
    /// The (start, mid, end) colors of this theme in btop's palette.
    pub fn colors(self) -> (c: ((u8, u8, u8), (u8, u8, u8), (u8, u8, u8)))
        ensures
            c == palette_colors(ColorPalette::Btop, self),
    {
        self.btop_colors()
    }

    fn btop_colors(self) -> (c: ((u8, u8, u8), (u8, u8, u8), (u8, u8, u8)))
        ensures
            c == btop_table(self),
    {
        match self {
            GradientTheme::Cpu => ((0x77, 0xca, 0x9b), (0xcb, 0xc0, 0x6c), (0xdc, 0x4c, 0x4c)),
            GradientTheme::Temp => ((0x48, 0x97, 0xd4), (0x54, 0x74, 0xe8), (0xff, 0x40, 0xb6)),
            GradientTheme::Free => ((0x38, 0x4f, 0x21), (0xb5, 0xe6, 0x85), (0xdc, 0xff, 0x85)),
            GradientTheme::Cached => ((0x16, 0x33, 0x50), (0x74, 0xe6, 0xfc), (0x26, 0xc5, 0xff)),
            GradientTheme::Available => ((0x4e, 0x3f, 0x0e), (0xff, 0xd7, 0x7a), (0xff, 0xb8, 0x14)),
            GradientTheme::Used => ((0x59, 0x2b, 0x26), (0xd9, 0x62, 0x6d), (0xff, 0x47, 0x69)),
            GradientTheme::Download => ((0x29, 0x1f, 0x75), (0x4f, 0x43, 0xa3), (0xb0, 0xa9, 0xde)),
            GradientTheme::Upload => ((0x62, 0x06, 0x65), (0x7d, 0x41, 0x80), (0xdc, 0xaf, 0xde)),
            GradientTheme::Process => ((0x80, 0xd0, 0xa3), (0xdc, 0xd1, 0x79), (0xd4, 0x54, 0x54)),
        }
    }

    fn synthwave_colors(self) -> (c: ((u8, u8, u8), (u8, u8, u8), (u8, u8, u8)))
        ensures
            c == synthwave_table(self),
    {
        match self {
            GradientTheme::Cpu => ((0x05, 0xd9, 0xe8), (0xd3, 0x00, 0xc5), (0xff, 0x2a, 0x6d)),
            GradientTheme::Temp => ((0x2b, 0x0b, 0x3f), (0xff, 0x00, 0xff), (0x05, 0xd9, 0xe8)),
            GradientTheme::Free => ((0x1a, 0x05, 0x33), (0x00, 0xf0, 0xff), (0xff, 0x6e, 0xc7)),
            GradientTheme::Cached => ((0x24, 0x00, 0x46), (0x43, 0x61, 0xee), (0x4c, 0xc9, 0xf0)),
            GradientTheme::Available => ((0x5c, 0x00, 0x4d), (0xff, 0x6b, 0x35), (0xff, 0xd6, 0x0a)),
            GradientTheme::Used => ((0x3d, 0x0c, 0x44), (0xff, 0x00, 0x6e), (0xff, 0x0a, 0x54)),
            GradientTheme::Download => ((0x10, 0x00, 0x2b), (0x7b, 0x2c, 0xbf), (0x00, 0xb4, 0xd8)),
            GradientTheme::Upload => ((0x4a, 0x04, 0x4e), (0xff, 0x0a, 0x81), (0x72, 0xef, 0xdd)),
            GradientTheme::Process => ((0x0a, 0xff, 0x99), (0xd9, 0x00, 0xff), (0xff, 0x2a, 0x6d)),
        }
    }

    fn hacker_colors(self) -> (c: ((u8, u8, u8), (u8, u8, u8), (u8, u8, u8)))
        ensures
            c == hacker_table(self),
    {
        match self {
            GradientTheme::Cpu => ((0x00, 0x2b, 0x00), (0x00, 0xb3, 0x00), (0x39, 0xff, 0x14)),
            GradientTheme::Temp => ((0x1a, 0x12, 0x00), (0xcc, 0x77, 0x00), (0xff, 0xcc, 0x00)),
            GradientTheme::Free => ((0x00, 0x1a, 0x0a), (0x00, 0x99, 0x44), (0x00, 0xff, 0x88)),
            GradientTheme::Cached => ((0x00, 0x16, 0x20), (0x00, 0x77, 0x99), (0x00, 0xe5, 0xff)),
            GradientTheme::Available => ((0x1a, 0x10, 0x00), (0xaa, 0x77, 0x00), (0xff, 0xbb, 0x33)),
            GradientTheme::Used => ((0x1a, 0x00, 0x00), (0xcc, 0x11, 0x00), (0xff, 0x22, 0x44)),
            GradientTheme::Download => ((0x00, 0x1a, 0x2b), (0x00, 0x66, 0x99), (0x00, 0xcc, 0xff)),
            GradientTheme::Upload => ((0x1a, 0x00, 0x22), (0x77, 0x00, 0xaa), (0xbb, 0x44, 0xff)),
            GradientTheme::Process => ((0x00, 0x22, 0x00), (0x00, 0xaa, 0x44), (0x66, 0xff, 0x99)),
        }
    }

    fn aqua_colors(self) -> (c: ((u8, u8, u8), (u8, u8, u8), (u8, u8, u8)))
        ensures
            c == aqua_table(self),
    {
        match self {
            GradientTheme::Cpu => ((0x00, 0x66, 0x66), (0xff, 0xc1, 0x50), (0xff, 0x5f, 0x57)),
            GradientTheme::Temp => ((0x00, 0x33, 0x55), (0x00, 0x93, 0xcb), (0x87, 0xce, 0xfa)),
            GradientTheme::Free => ((0x00, 0x44, 0x44), (0x40, 0xc0, 0xc0), (0xaf, 0xff, 0xe6)),
            GradientTheme::Cached => ((0x00, 0x22, 0x44), (0x00, 0x66, 0xcc), (0x99, 0xcc, 0xff)),
            GradientTheme::Available => ((0x44, 0x55, 0x66), (0xb4, 0xc8, 0xdc), (0xff, 0xf8, 0xdc)),
            GradientTheme::Used => ((0x44, 0x22, 0x33), (0xcc, 0x66, 0x80), (0xff, 0x66, 0x66)),
            GradientTheme::Download => ((0x00, 0x22, 0x33), (0x00, 0x93, 0xcb), (0x66, 0xd9, 0xff)),
            GradientTheme::Upload => ((0x33, 0x22, 0x55), (0x80, 0x66, 0xcc), (0xcc, 0xb3, 0xff)),
            GradientTheme::Process => ((0x00, 0x44, 0x55), (0x00, 0x99, 0xb4), (0x66, 0xff, 0xe6)),
        }
    }
}

/// A color as one 24-bit number, `0xRRGGBB`.
pub open spec fn hex(c: (u8, u8, u8)) -> int {
    c.0 * 0x10000 + c.1 * 0x100 + c.2
}

/// btop's default theme, as start, mid and end colors in hex for each theme.
pub proof fn lemma_btop_hex()
    ensures
        hex(palette_colors(ColorPalette::Btop, GradientTheme::Cpu).0) == 0x77ca9b,
        hex(palette_colors(ColorPalette::Btop, GradientTheme::Cpu).1) == 0xcbc06c,
        hex(palette_colors(ColorPalette::Btop, GradientTheme::Cpu).2) == 0xdc4c4c,
        hex(palette_colors(ColorPalette::Btop, GradientTheme::Temp).0) == 0x4897d4,
        hex(palette_colors(ColorPalette::Btop, GradientTheme::Temp).1) == 0x5474e8,
        hex(palette_colors(ColorPalette::Btop, GradientTheme::Temp).2) == 0xff40b6,
        hex(palette_colors(ColorPalette::Btop, GradientTheme::Free).0) == 0x384f21,
        hex(palette_colors(ColorPalette::Btop, GradientTheme::Free).1) == 0xb5e685,
        hex(palette_colors(ColorPalette::Btop, GradientTheme::Free).2) == 0xdcff85,
        hex(palette_colors(ColorPalette::Btop, GradientTheme::Cached).0) == 0x163350,
        hex(palette_colors(ColorPalette::Btop, GradientTheme::Cached).1) == 0x74e6fc,
        hex(palette_colors(ColorPalette::Btop, GradientTheme::Cached).2) == 0x26c5ff,
        hex(palette_colors(ColorPalette::Btop, GradientTheme::Available).0) == 0x4e3f0e,
        hex(palette_colors(ColorPalette::Btop, GradientTheme::Available).1) == 0xffd77a,
        hex(palette_colors(ColorPalette::Btop, GradientTheme::Available).2) == 0xffb814,
        hex(palette_colors(ColorPalette::Btop, GradientTheme::Used).0) == 0x592b26,
        hex(palette_colors(ColorPalette::Btop, GradientTheme::Used).1) == 0xd9626d,
        hex(palette_colors(ColorPalette::Btop, GradientTheme::Used).2) == 0xff4769,
        hex(palette_colors(ColorPalette::Btop, GradientTheme::Download).0) == 0x291f75,
        hex(palette_colors(ColorPalette::Btop, GradientTheme::Download).1) == 0x4f43a3,
        hex(palette_colors(ColorPalette::Btop, GradientTheme::Download).2) == 0xb0a9de,
        hex(palette_colors(ColorPalette::Btop, GradientTheme::Upload).0) == 0x620665,
        hex(palette_colors(ColorPalette::Btop, GradientTheme::Upload).1) == 0x7d4180,
        hex(palette_colors(ColorPalette::Btop, GradientTheme::Upload).2) == 0xdcafde,
        hex(palette_colors(ColorPalette::Btop, GradientTheme::Process).0) == 0x80d0a3,
        hex(palette_colors(ColorPalette::Btop, GradientTheme::Process).1) == 0xdcd179,
        hex(palette_colors(ColorPalette::Btop, GradientTheme::Process).2) == 0xd45454,
{
}

/// The synthwave palette, as start, mid and end colors in hex for each theme.
pub proof fn lemma_synthwave_hex()
    ensures
        hex(palette_colors(ColorPalette::Synthwave, GradientTheme::Cpu).0) == 0x05d9e8,
        hex(palette_colors(ColorPalette::Synthwave, GradientTheme::Cpu).1) == 0xd300c5,
        hex(palette_colors(ColorPalette::Synthwave, GradientTheme::Cpu).2) == 0xff2a6d,
        hex(palette_colors(ColorPalette::Synthwave, GradientTheme::Temp).0) == 0x2b0b3f,
        hex(palette_colors(ColorPalette::Synthwave, GradientTheme::Temp).1) == 0xff00ff,
        hex(palette_colors(ColorPalette::Synthwave, GradientTheme::Temp).2) == 0x05d9e8,
        hex(palette_colors(ColorPalette::Synthwave, GradientTheme::Free).0) == 0x1a0533,
        hex(palette_colors(ColorPalette::Synthwave, GradientTheme::Free).1) == 0x00f0ff,
        hex(palette_colors(ColorPalette::Synthwave, GradientTheme::Free).2) == 0xff6ec7,
        hex(palette_colors(ColorPalette::Synthwave, GradientTheme::Cached).0) == 0x240046,
        hex(palette_colors(ColorPalette::Synthwave, GradientTheme::Cached).1) == 0x4361ee,
        hex(palette_colors(ColorPalette::Synthwave, GradientTheme::Cached).2) == 0x4cc9f0,
        hex(palette_colors(ColorPalette::Synthwave, GradientTheme::Available).0) == 0x5c004d,
        hex(palette_colors(ColorPalette::Synthwave, GradientTheme::Available).1) == 0xff6b35,
        hex(palette_colors(ColorPalette::Synthwave, GradientTheme::Available).2) == 0xffd60a,
        hex(palette_colors(ColorPalette::Synthwave, GradientTheme::Used).0) == 0x3d0c44,
        hex(palette_colors(ColorPalette::Synthwave, GradientTheme::Used).1) == 0xff006e,
        hex(palette_colors(ColorPalette::Synthwave, GradientTheme::Used).2) == 0xff0a54,
        hex(palette_colors(ColorPalette::Synthwave, GradientTheme::Download).0) == 0x10002b,
        hex(palette_colors(ColorPalette::Synthwave, GradientTheme::Download).1) == 0x7b2cbf,
        hex(palette_colors(ColorPalette::Synthwave, GradientTheme::Download).2) == 0x00b4d8,
        hex(palette_colors(ColorPalette::Synthwave, GradientTheme::Upload).0) == 0x4a044e,
        hex(palette_colors(ColorPalette::Synthwave, GradientTheme::Upload).1) == 0xff0a81,
        hex(palette_colors(ColorPalette::Synthwave, GradientTheme::Upload).2) == 0x72efdd,
        hex(palette_colors(ColorPalette::Synthwave, GradientTheme::Process).0) == 0x0aff99,
        hex(palette_colors(ColorPalette::Synthwave, GradientTheme::Process).1) == 0xd900ff,
        hex(palette_colors(ColorPalette::Synthwave, GradientTheme::Process).2) == 0xff2a6d,
{
}

/// The CRT-terminal palette, as start, mid and end colors in hex for each theme.
pub proof fn lemma_hacker_hex()
    ensures
        hex(palette_colors(ColorPalette::Hacker, GradientTheme::Cpu).0) == 0x002b00,
        hex(palette_colors(ColorPalette::Hacker, GradientTheme::Cpu).1) == 0x00b300,
        hex(palette_colors(ColorPalette::Hacker, GradientTheme::Cpu).2) == 0x39ff14,
        hex(palette_colors(ColorPalette::Hacker, GradientTheme::Temp).0) == 0x1a1200,
        hex(palette_colors(ColorPalette::Hacker, GradientTheme::Temp).1) == 0xcc7700,
        hex(palette_colors(ColorPalette::Hacker, GradientTheme::Temp).2) == 0xffcc00,
        hex(palette_colors(ColorPalette::Hacker, GradientTheme::Free).0) == 0x001a0a,
        hex(palette_colors(ColorPalette::Hacker, GradientTheme::Free).1) == 0x009944,
        hex(palette_colors(ColorPalette::Hacker, GradientTheme::Free).2) == 0x00ff88,
        hex(palette_colors(ColorPalette::Hacker, GradientTheme::Cached).0) == 0x001620,
        hex(palette_colors(ColorPalette::Hacker, GradientTheme::Cached).1) == 0x007799,
        hex(palette_colors(ColorPalette::Hacker, GradientTheme::Cached).2) == 0x00e5ff,
        hex(palette_colors(ColorPalette::Hacker, GradientTheme::Available).0) == 0x1a1000,
        hex(palette_colors(ColorPalette::Hacker, GradientTheme::Available).1) == 0xaa7700,
        hex(palette_colors(ColorPalette::Hacker, GradientTheme::Available).2) == 0xffbb33,
        hex(palette_colors(ColorPalette::Hacker, GradientTheme::Used).0) == 0x1a0000,
        hex(palette_colors(ColorPalette::Hacker, GradientTheme::Used).1) == 0xcc1100,
        hex(palette_colors(ColorPalette::Hacker, GradientTheme::Used).2) == 0xff2244,
        hex(palette_colors(ColorPalette::Hacker, GradientTheme::Download).0) == 0x001a2b,
        hex(palette_colors(ColorPalette::Hacker, GradientTheme::Download).1) == 0x006699,
        hex(palette_colors(ColorPalette::Hacker, GradientTheme::Download).2) == 0x00ccff,
        hex(palette_colors(ColorPalette::Hacker, GradientTheme::Upload).0) == 0x1a0022,
        hex(palette_colors(ColorPalette::Hacker, GradientTheme::Upload).1) == 0x7700aa,
        hex(palette_colors(ColorPalette::Hacker, GradientTheme::Upload).2) == 0xbb44ff,
        hex(palette_colors(ColorPalette::Hacker, GradientTheme::Process).0) == 0x002200,
        hex(palette_colors(ColorPalette::Hacker, GradientTheme::Process).1) == 0x00aa44,
        hex(palette_colors(ColorPalette::Hacker, GradientTheme::Process).2) == 0x66ff99,
{
}

/// The early Mac OS X palette, as start, mid and end colors in hex for each theme.
pub proof fn lemma_aqua_hex()
    ensures
        hex(palette_colors(ColorPalette::Aqua, GradientTheme::Cpu).0) == 0x006666,
        hex(palette_colors(ColorPalette::Aqua, GradientTheme::Cpu).1) == 0xffc150,
        hex(palette_colors(ColorPalette::Aqua, GradientTheme::Cpu).2) == 0xff5f57,
        hex(palette_colors(ColorPalette::Aqua, GradientTheme::Temp).0) == 0x003355,
        hex(palette_colors(ColorPalette::Aqua, GradientTheme::Temp).1) == 0x0093cb,
        hex(palette_colors(ColorPalette::Aqua, GradientTheme::Temp).2) == 0x87cefa,
        hex(palette_colors(ColorPalette::Aqua, GradientTheme::Free).0) == 0x004444,
        hex(palette_colors(ColorPalette::Aqua, GradientTheme::Free).1) == 0x40c0c0,
        hex(palette_colors(ColorPalette::Aqua, GradientTheme::Free).2) == 0xafffe6,
        hex(palette_colors(ColorPalette::Aqua, GradientTheme::Cached).0) == 0x002244,
        hex(palette_colors(ColorPalette::Aqua, GradientTheme::Cached).1) == 0x0066cc,
        hex(palette_colors(ColorPalette::Aqua, GradientTheme::Cached).2) == 0x99ccff,
        hex(palette_colors(ColorPalette::Aqua, GradientTheme::Available).0) == 0x445566,
        hex(palette_colors(ColorPalette::Aqua, GradientTheme::Available).1) == 0xb4c8dc,
        hex(palette_colors(ColorPalette::Aqua, GradientTheme::Available).2) == 0xfff8dc,
        hex(palette_colors(ColorPalette::Aqua, GradientTheme::Used).0) == 0x442233,
        hex(palette_colors(ColorPalette::Aqua, GradientTheme::Used).1) == 0xcc6680,
        hex(palette_colors(ColorPalette::Aqua, GradientTheme::Used).2) == 0xff6666,
        hex(palette_colors(ColorPalette::Aqua, GradientTheme::Download).0) == 0x002233,
        hex(palette_colors(ColorPalette::Aqua, GradientTheme::Download).1) == 0x0093cb,
        hex(palette_colors(ColorPalette::Aqua, GradientTheme::Download).2) == 0x66d9ff,
        hex(palette_colors(ColorPalette::Aqua, GradientTheme::Upload).0) == 0x332255,
        hex(palette_colors(ColorPalette::Aqua, GradientTheme::Upload).1) == 0x8066cc,
        hex(palette_colors(ColorPalette::Aqua, GradientTheme::Upload).2) == 0xccb3ff,
        hex(palette_colors(ColorPalette::Aqua, GradientTheme::Process).0) == 0x004455,
        hex(palette_colors(ColorPalette::Aqua, GradientTheme::Process).1) == 0x0099b4,
        hex(palette_colors(ColorPalette::Aqua, GradientTheme::Process).2) == 0x66ffe6,
{
}

} // verus!
