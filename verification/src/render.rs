//! The rendering core: from quantized samples to a grid of colored
//! characters.
//!
//! A graph of `height` rows splits the range 0–100 into one band per row.
//! Each sample is quantized, per row, to a level in `0..=4` within that
//! row's band; each character then shows two consecutive samples (the
//! overlapping windows `(data[c], data[c + 1])`), so `n` samples give `n - 1`
//! characters per row.
use vstd::prelude::*;
use vstd::arithmetic::div_mod::{lemma_div_is_ordered, lemma_fundamental_div_mod, lemma_mod_bound};

use crate::gradient::ColorGradient;

verus! {

/// Rows top to bottom, each holding `(character, rgb)` cells left to right.
pub struct RenderOutput {
    pub rows: Vec<Vec<(char, (u8, u8, u8))>>,
}

/// `100 * k / h` rounded to the nearest integer, halves upwards.
pub open spec fn percent_of(k: int, h: int) -> int {
    (200 * k + h) / (2 * h)
}

/// The (high, low) edges, in percent, of the band drawn by `row` of a graph
/// `height` rows tall; a one-row graph covers the whole range.
pub open spec fn band_of(height: int, row: int) -> (int, int) {
    if height > 1 {
        (percent_of(height - row, height), percent_of(height - row - 1, height))
    } else {
        (100, 0)
    }
}

/// The least level a sample may get in `row`: 1 in the bottom row when
/// `no_zero` asks every nonzero sample to leave a mark there, else 0.
pub open spec fn clamp_min_of(height: int, row: int, no_zero: bool) -> u8 {
    if no_zero && row == height - 1 {
        1
    } else {
        0
    }
}

/// The gradient percentage that colors all of `row` in a graph of more than
/// one row: hot at the top, cool at the bottom, or the reverse when the graph
/// hangs downwards.
pub open spec fn shade_of(height: int, row: int, invert: bool) -> int {
    if invert {
        percent_of(row + 1, height)
    } else {
        percent_of(height - row, height)
    }
}

/// The color of stop `value` of a gradient, above 100 the last stop.
pub open spec fn stop_at(stops: Seq<(u8, u8, u8)>, value: int) -> (u8, u8, u8) {
    stops[if value <= 100 { value } else { 100 }]
}

/// `0 <= percent_of(k, h) <= 100` for `0 <= k <= h`, and it grows with `k`.
pub proof fn lemma_percent_of(k: int, j: int, h: int)
    requires
        0 <= j <= k <= h,
        0 < h,
    ensures
        0 <= percent_of(j, h) <= percent_of(k, h) <= 100,
{
    let x = 200 * k + h;
    let d = 2 * h;
    lemma_fundamental_div_mod(x, d);
    lemma_mod_bound(x, d);
    let q = x / d;
    let r = x % d;
    assert(q <= 100) by (nonlinear_arith)
        requires
            x == d * q + r,
            0 <= r < d,
            x == 200 * k + h,
            d == 2 * h,
            k <= h,
            0 < h,
    ;
    lemma_div_is_ordered(200 * j + h, x, d);
    lemma_div_is_ordered(0, 200 * j + h, d);
}

/// `percent_of(k, h)`, computed without overflow.
fn percent(k: usize, h: usize) -> (p: u8)
    requires
        k <= h,
        0 < h,
    ensures
        p == percent_of(k as int, h as int),
{
    proof {
        lemma_percent_of(k as int, k as int, h as int);
    }
    let x: u128 = 200 * (k as u128) + (h as u128);
    let q: u128 = x / (2 * (h as u128));
    q as u8
}

/// The (high, low) edges of the band that `row` draws.
pub fn row_band(height: usize, row: usize) -> (band: (u8, u8))
    requires
        row < height,
    ensures
        band.0 == band_of(height as int, row as int).0,
        band.1 == band_of(height as int, row as int).1,
        band.1 <= band.0 <= 100,
{
    if height > 1 {
        proof {
            lemma_percent_of((height - row) as int, (height - row - 1) as int, height as int);
        }
        (percent(height - row, height), percent(height - row - 1, height))
    } else {
        (100, 0)
    }
}

/// The least level a sample may get in `row`.
pub fn row_clamp_min(height: usize, row: usize, no_zero: bool) -> (m: u8)
    requires
        row < height,
    ensures
        m == clamp_min_of(height as int, row as int, no_zero),
        m <= 1,
        m == 1 <==> (no_zero && row + 1 == height),
{
    if no_zero && row == height - 1 {
        1
    } else {
        0
    }
}

/// The color shared by all of `row` when the graph has more than one row;
/// `None` for a one-row graph, whose characters are each colored by their
/// own samples.
pub fn row_color(gradient: &ColorGradient, height: usize, row: usize, invert: bool) -> (c: Option<
    (u8, u8, u8),
>)
    requires
        row < height,
    ensures
        c == if height > 1 {
            Some(stop_at(gradient@, shade_of(height as int, row as int, invert)))
        } else {
            None::<(u8, u8, u8)>
        },
{
    if height > 1 {
        let pct = if invert {
            percent(row + 1, height)
        } else {
            percent(height - row, height)
        };
        Some(gradient.at(pct))
    } else {
        None
    }
}

/// The row of the picture that output row `k` shows: the picture is turned
/// upside down when it hangs downwards.
pub open spec fn source_row(height: int, k: int, invert: bool) -> int {
    if invert {
        height - 1 - k
    } else {
        k
    }
}

/// The cells of picture row `row`, whose samples have the levels `levels`:
/// cell `c` shows samples `c` and `c + 1`.
pub open spec fn rendered_row(
    levels: Seq<u8>,
    shades: Seq<u8>,
    height: int,
    row: int,
    symbols: Seq<char>,
    stops: Seq<(u8, u8, u8)>,
    invert: bool,
) -> Seq<(char, (u8, u8, u8))> {
    Seq::new(
        (shades.len() - 1) as nat,
        |c: int|
            (
                symbols[levels[c] * 5 + levels[c + 1]],
                if height > 1 {
                    stop_at(stops, shade_of(height, row, invert))
                } else {
                    stop_at(
                        stops,
                        if shades[c] >= shades[c + 1] {
                            shades[c] as int
                        } else {
                            shades[c + 1] as int
                        },
                    )
                },
            ),
    )
}

/// Draws a graph from samples already quantized per row.
///
/// `levels[r][j]` is the level (`0..=4`) of sample `j` within the band of
/// picture row `r`; `shades[j]` is sample `j` as a whole percentage, which
/// colors the characters of a one-row graph. With no rows or fewer than two
/// samples there is nothing to draw. With `invert` the rows come out bottom
/// row first.
pub fn render_levels(
    levels: &Vec<Vec<u8>>,
    shades: &Vec<u8>,
    height: usize,
    symbols: &[char; 25],
    gradient: &ColorGradient,
    invert: bool,
) -> (out: RenderOutput)
    requires
        levels@.len() == height,
        forall|r: int| 0 <= r < height ==> (#[trigger] levels@[r])@.len() == shades@.len(),
        forall|r: int, j: int|
            0 <= r < height && 0 <= j < shades@.len() ==> #[trigger] levels@[r]@[j] <= 4,
    ensures
        out.rows@.len() == if height == 0 || shades@.len() < 2 {
            0
        } else {
            height
        },
        forall|k: int|
            0 <= k < out.rows@.len() ==> (#[trigger] out.rows@[k])@ == rendered_row(
                levels@[source_row(height as int, k, invert)]@,
                shades@,
                height as int,
                source_row(height as int, k, invert),
                symbols@,
                gradient@,
                invert,
            ),
        forall|k: int, c: int|
            #![trigger out.rows@[k]@[c]]
            0 <= k < out.rows@.len() && 0 <= c < shades@.len() - 1 ==> {
                let r = if invert {
                    height - 1 - k
                } else {
                    k
                };
                let hi = if shades@[c] < shades@[c + 1] {
                    shades@[c + 1] as int
                } else {
                    shades@[c] as int
                };
                &&& out.rows@[k]@.len() == shades@.len() - 1
                &&& out.rows@[k]@[c].0 == symbols@[levels@[r]@[c] * 5 + levels@[r]@[c + 1]]
                &&& height > 1 ==> out.rows@[k]@[c].1 == gradient@[(200 * (height - k) + height) / (
                2 * height)]
                &&& height == 1 ==> out.rows@[k]@[c].1 == gradient@[if hi <= 100 {
                    hi
                } else {
                    100
                }]
            },
{
    let mut rows: Vec<Vec<(char, (u8, u8, u8))>> = Vec::new();
    let n = shades.len();
    if height == 0 || n < 2 {
        return RenderOutput { rows };
    }
    let mut k: usize = 0;
    while k < height
        invariant
            k <= height,
            n == shades@.len(),
            n >= 2,
            rows@.len() == k,
            levels@.len() == height,
            forall|r: int| 0 <= r < height ==> (#[trigger] levels@[r])@.len() == shades@.len(),
            forall|r: int, j: int|
                0 <= r < height && 0 <= j < shades@.len() ==> #[trigger] levels@[r]@[j] <= 4,
            forall|i: int|
                0 <= i < k ==> (#[trigger] rows@[i])@ == rendered_row(
                    levels@[source_row(height as int, i, invert)]@,
                    shades@,
                    height as int,
                    source_row(height as int, i, invert),
                    symbols@,
                    gradient@,
                    invert,
                ),
        decreases height - k,
    {
        let r = if invert {
            height - 1 - k
        } else {
            k
        };
        let color = row_color(gradient, height, r, invert);
        let line = &levels[r];
        let mut cells: Vec<(char, (u8, u8, u8))> = Vec::new();
        let ghost want = rendered_row(
            levels@[r as int]@,
            shades@,
            height as int,
            r as int,
            symbols@,
            gradient@,
            invert,
        );
        let mut c: usize = 0;
        while c + 1 < n
            invariant
                c + 1 <= n,
                n == shades@.len(),
                line@ == levels@[r as int]@,
                line@.len() == n,
                forall|j: int| 0 <= j < n ==> #[trigger] line@[j] <= 4,
                r < height,
                color == if height > 1 {
                    Some(stop_at(gradient@, shade_of(height as int, r as int, invert)))
                } else {
                    None::<(u8, u8, u8)>
                },
                want == rendered_row(
                    levels@[r as int]@,
                    shades@,
                    height as int,
                    r as int,
                    symbols@,
                    gradient@,
                    invert,
                ),
                cells@.len() == c,
                forall|i: int| 0 <= i < c ==> #[trigger] cells@[i] == want[i],
            decreases n - c,
        {
            let q_last = line[c];
            let q_curr = line[c + 1];
            let ch = symbols[(q_last as usize) * 5 + (q_curr as usize)];
            let rgb = match color {
                Some(rgb) => rgb,
                None => {
                    let a = shades[c];
                    let b = shades[c + 1];
                    gradient.at(if a >= b { a } else { b })
                },
            };
            cells.push((ch, rgb));
            c = c + 1;
        }
        assert(cells@ =~= want);
        rows.push(cells);
        k = k + 1;
    }
    let out = RenderOutput { rows };
    assert forall|k: int, c: int|
        #![trigger out.rows@[k]@[c]]
        0 <= k < out.rows@.len() && 0 <= c < shades@.len() - 1 implies {
            let r = if invert {
                height - 1 - k
            } else {
                k
            };
            let hi = if shades@[c] < shades@[c + 1] {
                shades@[c + 1] as int
            } else {
                shades@[c] as int
            };
            &&& out.rows@[k]@.len() == shades@.len() - 1
            &&& out.rows@[k]@[c].0 == symbols@[levels@[r]@[c] * 5 + levels@[r]@[c + 1]]
            &&& height > 1 ==> out.rows@[k]@[c].1 == gradient@[(200 * (height - k) + height) / (2
                * height)]
            &&& height == 1 ==> out.rows@[k]@[c].1 == gradient@[if hi <= 100 {
                hi
            } else {
                100
            }]
        } by {
        assert(out.rows@[k]@ == rendered_row(
            levels@[source_row(height as int, k, invert)]@,
            shades@,
            height as int,
            source_row(height as int, k, invert),
            symbols@,
            gradient@,
            invert,
        ));
        if height > 1 {
            lemma_percent_of((height - k) as int, (height - k) as int, height as int);
        }
    }
    out
}

/// The bands of a graph tile the range 0–100 from top to bottom: the top
/// row's band reaches 100, the bottom row's starts at 0, each band ends
/// where the one below begins, and in an upright graph each row is colored
/// by the top edge of its band.
pub proof fn lemma_bands_tile(height: int, row: int)
    requires
        0 <= row < height,
    ensures
        0 <= band_of(height, row).1 <= band_of(height, row).0 <= 100,
        row == 0 ==> band_of(height, row).0 == 100,
        row == height - 1 ==> band_of(height, row).1 == 0,
        row + 1 < height ==> band_of(height, row).1 == band_of(height, row + 1).0,
        height > 1 ==> shade_of(height, row, false) == band_of(height, row).0,
{
    if height > 1 {
        lemma_percent_of(height - row, height - row - 1, height);
        lemma_percent_of(height, height, height);
        lemma_percent_of(0, 0, height);
        assert(percent_of(height, height) == 100) by {
            lemma_fundamental_div_mod(200 * height + height, 2 * height);
            lemma_mod_bound(200 * height + height, 2 * height);
            let q = (200 * height + height) / (2 * height);
            let r = (200 * height + height) % (2 * height);
            assert(q == 100) by (nonlinear_arith)
                requires
                    200 * height + height == 2 * height * q + r,
                    0 <= r < 2 * height,
                    0 < height,
            ;
        }
        assert(percent_of(0, height) == 0) by {
            assert((200 * 0 + height) / (2 * height) == 0) by (nonlinear_arith)
                requires
                    0 < height,
            ;
        }
    }
}

/// In a one-row graph each cell takes the color of the larger of the two
/// samples it shows, whichever side that sample is on.
pub proof fn lemma_one_row_cell_color(
    levels: Seq<u8>,
    shades: Seq<u8>,
    row: int,
    symbols: Seq<char>,
    stops: Seq<(u8, u8, u8)>,
    invert: bool,
    c: int,
)
    requires
        shades.len() >= 2,
        0 <= c < shades.len() - 1,
    ensures
        ({
            let color = rendered_row(levels, shades, 1, row, symbols, stops, invert)[c].1;
            &&& shades[c] >= shades[c + 1] ==> color == stops[if shades[c] <= 100 {
                shades[c] as int
            } else {
                100
            }]
            &&& shades[c + 1] >= shades[c] ==> color == stops[if shades[c + 1] <= 100 {
                shades[c + 1] as int
            } else {
                100
            }]
        }),
{
}

/// Inverting turns the picture upside down: output row `k` of an inverted
/// graph shows the picture row that output row `height - 1 - k` of an
/// upright graph shows, and inverting twice gives the row back.
pub proof fn lemma_inverted_rows_reversed(height: int, k: int)
    requires
        0 <= k < height,
    ensures
        source_row(height, k, false) == k,
        source_row(height, k, true) == height - 1 - k,
        source_row(height, k, true) == source_row(height, height - 1 - k, false),
        source_row(height, source_row(height, k, true), true) == k,
{
}

/// In a graph of several rows, output row `k` has the same color whether
/// the graph is inverted or not: the top row is the last stop, and the
/// colors cool from the top row down.
pub proof fn lemma_row_colors_hot_on_top(height: int, k: int)
    requires
        0 <= k < height,
        height > 1,
    ensures
        shade_of(height, source_row(height, k, true), true) == shade_of(
            height,
            source_row(height, k, false),
            false,
        ),
        shade_of(height, source_row(height, 0, false), false) == 100,
        k + 1 < height ==> shade_of(height, source_row(height, k + 1, false), false) <= shade_of(
            height,
            source_row(height, k, false),
            false,
        ),
{
    lemma_bands_tile(height, 0);
    if k + 1 < height {
        lemma_percent_of(height - k, height - k - 1, height);
    }
}

/// Only the bottom row of a graph is floored, and only when `no_zero` asks
/// for it: every other row lets a sample fall to level 0.
pub proof fn lemma_clamp_min_bottom_only(height: int, row: int, no_zero: bool)
    requires
        0 <= row < height,
    ensures
        clamp_min_of(height, row, no_zero) <= 1,
        clamp_min_of(height, row, no_zero) == 1 <==> (no_zero && row == height - 1),
        height > 1 ==> clamp_min_of(height, 0, no_zero) == 0,
{
}

/// `percent_of(k, h)` is `100 * k / h` rounded to the nearest integer, a
/// half going up: it lies within a half of the exact ratio, and an exact
/// half is rounded upwards.
pub proof fn lemma_percent_of_nearest(k: int, h: int)
    requires
        0 < h,
    ensures
        2 * h * percent_of(k, h) <= 200 * k + h,
        200 * k + h < 2 * h * (percent_of(k, h) + 1),
{
    let x = 200 * k + h;
    let d = 2 * h;
    lemma_fundamental_div_mod(x, d);
    lemma_mod_bound(x, d);
    let q = x / d;
    assert(2 * h * q <= x && x < 2 * h * (q + 1)) by (nonlinear_arith)
        requires
            x == d * q + x % d,
            0 <= x % d < d,
            d == 2 * h,
    ;
}

} // verus!
