//! The monitor's settings and the key-driven changes made to them.
//!
//! Reading and writing the settings file is left to the caller: every
//! change here is a pure update of a `Config`, after which the caller saves.
use vstd::prelude::*;

use crate::gradient::ColorPalette;
use crate::symbols::SymbolSet;

verus! {

/// The shortest refresh interval, in milliseconds.
pub const TUI_MIN_MS: u32 = 250;

/// The longest refresh interval, in milliseconds.
pub const TUI_MAX_MS: u32 = 10_000;

/// The step by which the refresh interval changes, in milliseconds.
pub const INTERVAL_STEP: u32 = 250;

/// A terminal color, as the settings file names it.
#[derive(Debug, Clone, Copy, PartialEq, Eq, Structural)]
pub enum TermColor {
    Reset,
    Black,
    Red,
    Green,
    Yellow,
    Blue,
    Magenta,
    Cyan,
    Gray,
    DarkGray,
    LightRed,
    LightGreen,
    LightYellow,
    LightBlue,
    LightMagenta,
    LightCyan,
    White,
    Rgb(u8, u8, u8),
    Indexed(u8),
}

/// How the metrics are drawn.
#[derive(Debug, Clone, Copy, PartialEq, Eq, Structural)]
pub enum ViewType {
    Sparkline,
    Gauge,
}

/// The symbol set a graph is drawn with, as the settings file names it.
#[derive(Debug, Clone, Copy, PartialEq, Eq, Structural)]
pub enum GraphSymbol {
    Braille,
    Block,
    TTY,
}

impl GraphSymbol {
    /// The graph symbol set of the same name.
    pub fn to_symbol_set(self) -> (s: SymbolSet)
        ensures
            s == match self {
                GraphSymbol::Braille => SymbolSet::Braille,
                GraphSymbol::Block => SymbolSet::Block,
                GraphSymbol::TTY => SymbolSet::TTY,
            },
    {
        match self {
            GraphSymbol::Braille => SymbolSet::Braille,
            GraphSymbol::Block => SymbolSet::Block,
            GraphSymbol::TTY => SymbolSet::TTY,
        }
    }
}

/// The graph palette, as the settings file names it.
#[derive(Debug, Clone, Copy, PartialEq, Eq, Structural)]
pub enum GraphColorPalette {
    Btop,
    Synthwave,
    Hacker,
    Aqua,
}

impl Default for GraphColorPalette {
    fn default() -> (p: Self)
        ensures
            p == GraphColorPalette::Btop,
    {
        GraphColorPalette::Btop
    }
}

impl GraphColorPalette {
    /// The color palette of the same name.
    pub fn to_palette(self) -> (p: ColorPalette)
        ensures
            p == match self {
                GraphColorPalette::Btop => ColorPalette::Btop,
                GraphColorPalette::Synthwave => ColorPalette::Synthwave,
                GraphColorPalette::Hacker => ColorPalette::Hacker,
                GraphColorPalette::Aqua => ColorPalette::Aqua,
            },
    {
        match self {
            GraphColorPalette::Btop => ColorPalette::Btop,
            GraphColorPalette::Synthwave => ColorPalette::Synthwave,
            GraphColorPalette::Hacker => ColorPalette::Hacker,
            GraphColorPalette::Aqua => ColorPalette::Aqua,
        }
    }
}

/// The monitor's settings.
#[derive(Debug, Clone, Copy, PartialEq, Eq, Structural)]
pub struct Config {
    pub view_type: ViewType,
    pub color: TermColor,
    /// The refresh interval, in milliseconds.
    pub interval: u32,
    pub per_core_view: bool,
    pub graph_symbol: GraphSymbol,
    pub colored_graphs: bool,
    pub color_palette: GraphColorPalette,
}

impl Default for Config {
    /// The settings used when the file is missing, and for every key it
    /// lacks.
    fn default() -> (c: Self)
        ensures
            c == (Config {
                view_type: ViewType::Sparkline,
                color: TermColor::Green,
                interval: 1000,
                per_core_view: false,
                graph_symbol: GraphSymbol::Braille,
                colored_graphs: true,
                color_palette: GraphColorPalette::Btop,
            }),
    {
        Config {
            view_type: ViewType::Sparkline,
            color: TermColor::Green,
            interval: 1000,
            per_core_view: false,
            graph_symbol: GraphSymbol::Braille,
            colored_graphs: true,
            color_palette: GraphColorPalette::Btop,
        }
    }
}

/// The accent colors the color key cycles through, in order; a color not
/// among them moves to the first.
pub open spec fn color_after(c: TermColor) -> TermColor {
    match c {
        TermColor::Green => TermColor::Yellow,
        TermColor::Yellow => TermColor::Red,
        TermColor::Red => TermColor::Blue,
        TermColor::Blue => TermColor::Magenta,
        TermColor::Magenta => TermColor::Cyan,
        TermColor::Cyan => TermColor::Reset,
        TermColor::Reset => TermColor::Green,
        _ => TermColor::Green,
    }
}

/// Whether `c` is one of the accent colors the color key cycles through.
pub open spec fn is_accent(c: TermColor) -> bool {
    match c {
        TermColor::Green | TermColor::Yellow | TermColor::Red | TermColor::Blue
        | TermColor::Magenta | TermColor::Cyan | TermColor::Reset => true,
        _ => false,
    }
}

/// `interval` held within the allowed range.
pub open spec fn clamp_interval(interval: u32) -> u32 {
    if interval < TUI_MIN_MS {
        TUI_MIN_MS
    } else if interval > TUI_MAX_MS {
        TUI_MAX_MS
    } else {
        interval
    }
}

/// One step shorter: down by a step, rounded up to a whole number of steps,
/// and never below the minimum.
pub open spec fn interval_down(interval: u32) -> u32 {
    let lowered: int = if interval >= INTERVAL_STEP {
        interval - INTERVAL_STEP
    } else {
        0
    };
    let rounded = (lowered + INTERVAL_STEP - 1) / (INTERVAL_STEP as int) * INTERVAL_STEP;
    if rounded < TUI_MIN_MS {
        TUI_MIN_MS
    } else {
        rounded as u32
    }
}

/// One step longer: up by a step (saturating), rounded down to a whole
/// number of steps, and never above the maximum.
pub open spec fn interval_up(interval: u32) -> u32 {
    let raised: int = if interval + INTERVAL_STEP <= u32::MAX {
        interval + INTERVAL_STEP
    } else {
        u32::MAX as int
    };
    let rounded = raised / (INTERVAL_STEP as int) * INTERVAL_STEP;
    if rounded > TUI_MAX_MS {
        TUI_MAX_MS
    } else {
        rounded as u32
    }
}

/// The palette state after the graph-color key: btop, synthwave, hacker,
/// aqua, then plain (uncolored) graphs, then btop again.
pub open spec fn graph_color_after(colored: bool, palette: GraphColorPalette) -> (
    bool,
    GraphColorPalette,
) {
    if !colored {
        (true, GraphColorPalette::Btop)
    } else {
        match palette {
            GraphColorPalette::Btop => (true, GraphColorPalette::Synthwave),
            GraphColorPalette::Synthwave => (true, GraphColorPalette::Hacker),
            GraphColorPalette::Hacker => (true, GraphColorPalette::Aqua),
            GraphColorPalette::Aqua => (false, GraphColorPalette::Btop),
        }
    }
}

/// The symbol set after the graph-symbol key: braille, block, tty, braille.
pub open spec fn graph_symbol_after(s: GraphSymbol) -> GraphSymbol {
    match s {
        GraphSymbol::Braille => GraphSymbol::Block,
        GraphSymbol::Block => GraphSymbol::TTY,
        GraphSymbol::TTY => GraphSymbol::Braille,
    }
}

/// The view after the view key: sparkline and gauge alternate.
pub open spec fn view_type_after(v: ViewType) -> ViewType {
    match v {
        ViewType::Sparkline => ViewType::Gauge,
        ViewType::Gauge => ViewType::Sparkline,
    }
}

impl Config {
    /// These settings with the interval held within the allowed range.
    pub fn normalize(self) -> (c: Self)
        ensures
            c == (Config { interval: clamp_interval(self.interval), ..self }),
    {
        let mut c = self;
        c.interval = if self.interval < TUI_MIN_MS {
            TUI_MIN_MS
        } else if self.interval > TUI_MAX_MS {
            TUI_MAX_MS
        } else {
            self.interval
        };
        c
    }

    /// Moves to the next accent color.
    pub fn next_color(&mut self)
        ensures
            *final(self) == (Config { color: color_after(old(self).color), ..*old(self) }),
    {
        self.color = match self.color {
            TermColor::Green => TermColor::Yellow,
            TermColor::Yellow => TermColor::Red,
            TermColor::Red => TermColor::Blue,
            TermColor::Blue => TermColor::Magenta,
            TermColor::Magenta => TermColor::Cyan,
            TermColor::Cyan => TermColor::Reset,
            TermColor::Reset => TermColor::Green,
            _ => TermColor::Green,
        };
    }

    /// Switches between the sparkline and the gauge view.
    pub fn next_view_type(&mut self)
        ensures
            *final(self) == (Config { view_type: view_type_after(old(self).view_type), ..*old(self) }),
    {
        self.view_type = match self.view_type {
            ViewType::Sparkline => ViewType::Gauge,
            ViewType::Gauge => ViewType::Sparkline,
        };
    }

    /// Refreshes one step more often.
    pub fn dec_interval(&mut self)
        ensures
            *final(self) == (Config { interval: interval_down(old(self).interval), ..*old(self) }),
    {
        let step: u32 = INTERVAL_STEP;
        let lowered: u32 = self.interval.saturating_sub(step);
        let steps: u32 = lowered / step + if lowered % step != 0 {
            1
        } else {
            0
        };
        assert(steps == (lowered + step - 1) / (step as int)) by (nonlinear_arith)
            requires
                step == 250,
                steps == lowered / step + if lowered % step != 0 {
                    1int
                } else {
                    0
                },
        ;
        assert(steps * step <= u32::MAX) by (nonlinear_arith)
            requires
                step == 250,
                steps == (lowered + step - 1) / (step as int),
                lowered <= u32::MAX - 250,
        ;
        let rounded: u32 = steps * step;
        self.interval = if rounded < TUI_MIN_MS {
            TUI_MIN_MS
        } else {
            rounded
        };
    }

    /// Refreshes one step less often.
    pub fn inc_interval(&mut self)
        ensures
            *final(self) == (Config { interval: interval_up(old(self).interval), ..*old(self) }),
    {
        let step: u32 = INTERVAL_STEP;
        let raised: u32 = self.interval.saturating_add(step);
        let rounded: u32 = raised / step * step;
        self.interval = if rounded > TUI_MAX_MS {
            TUI_MAX_MS
        } else {
            rounded
        };
    }

    /// Turns the per-core view on or off.
    pub fn toggle_per_core_view(&mut self)
        ensures
            *final(self) == (Config { per_core_view: !old(self).per_core_view, ..*old(self) }),
    {
        self.per_core_view = !self.per_core_view;
    }

    /// Moves to the next graph symbol set.
    pub fn next_graph_symbol(&mut self)
        ensures
            *final(self) == (Config {
                graph_symbol: graph_symbol_after(old(self).graph_symbol),
                ..*old(self)
            }),
    {
        self.graph_symbol = match self.graph_symbol {
            GraphSymbol::Braille => GraphSymbol::Block,
            GraphSymbol::Block => GraphSymbol::TTY,
            GraphSymbol::TTY => GraphSymbol::Braille,
        };
    }

    /// Moves to the next graph palette, or to plain graphs after the last
    /// one, and from plain graphs back to btop's palette.
    pub fn next_graph_color(&mut self)
        ensures
            *final(self) == (Config {
                colored_graphs: graph_color_after(old(self).colored_graphs, old(self).color_palette).0,
                color_palette: graph_color_after(old(self).colored_graphs, old(self).color_palette).1,
                ..*old(self)
            }),
    {
        if !self.colored_graphs {
            self.colored_graphs = true;
            self.color_palette = GraphColorPalette::Btop;
        } else if self.color_palette == GraphColorPalette::Btop {
            self.color_palette = GraphColorPalette::Synthwave;
        } else if self.color_palette == GraphColorPalette::Synthwave {
            self.color_palette = GraphColorPalette::Hacker;
        } else if self.color_palette == GraphColorPalette::Hacker {
            self.color_palette = GraphColorPalette::Aqua;
        } else {
            self.colored_graphs = false;
            self.color_palette = GraphColorPalette::Btop;
        }
    }
}

/// The graph-color key cycles through five states, btop, synthwave,
/// hacker, aqua and plain, returning to where it started after five presses;
/// from any state one press lands in that cycle.
pub proof fn lemma_graph_color_cycle(colored: bool, palette: GraphColorPalette)
    ensures
        ({
            let s1 = graph_color_after(colored, palette);
            s1.0 || s1.1 == GraphColorPalette::Btop
        }),
        colored || palette == GraphColorPalette::Btop ==> ({
            let s1 = graph_color_after(colored, palette);
            let s2 = graph_color_after(s1.0, s1.1);
            let s3 = graph_color_after(s2.0, s2.1);
            let s4 = graph_color_after(s3.0, s3.1);
            let s5 = graph_color_after(s4.0, s4.1);
            s5 == (colored, palette) && s1 != (colored, palette)
        }),
{
}

/// The graph-symbol key cycles braille, block, tty: three presses return
/// to the start.
pub proof fn lemma_graph_symbol_cycle(s: GraphSymbol)
    ensures
        graph_symbol_after(graph_symbol_after(graph_symbol_after(s))) == s,
        graph_symbol_after(s) != s,
{
}

/// The view key alternates between the two views.
pub proof fn lemma_view_type_cycle(v: ViewType)
    ensures
        view_type_after(view_type_after(v)) == v,
        view_type_after(v) != v,
{
}

/// The color key cycles through the seven accent colors, returning to the
/// start after seven presses; any other color becomes an accent color after
/// one press.
pub proof fn lemma_color_cycle(c: TermColor)
    ensures
        is_accent(color_after(c)),
        is_accent(c) ==> color_after(
            color_after(color_after(color_after(color_after(color_after(color_after(c)))))),
        ) == c,
{
}

/// Changing the interval by a step keeps it within the allowed range and a
/// whole number of steps; a step up undoes a step down and the reverse,
/// away from the range's ends.
pub proof fn lemma_interval_steps(interval: u32)
    ensures
        TUI_MIN_MS <= interval_down(interval),
        interval_up(interval) <= TUI_MAX_MS,
        interval_down(interval) % INTERVAL_STEP == 0,
        interval_up(interval) % INTERVAL_STEP == 0,
        TUI_MIN_MS <= interval <= TUI_MAX_MS ==> TUI_MIN_MS <= interval_down(interval) <= TUI_MAX_MS,
        TUI_MIN_MS <= interval <= TUI_MAX_MS ==> TUI_MIN_MS <= interval_up(interval) <= TUI_MAX_MS,
        interval % INTERVAL_STEP == 0 && TUI_MIN_MS <= interval < TUI_MAX_MS ==> interval_down(
            interval_up(interval),
        ) == interval,
        interval % INTERVAL_STEP == 0 && TUI_MIN_MS < interval <= TUI_MAX_MS ==> interval_up(
            interval_down(interval),
        ) == interval,
{
    let lowered: int = if interval >= 250 { interval - 250 } else { 0 };
    let raised: int = if interval + 250 <= u32::MAX { interval + 250 } else { u32::MAX as int };
    assert(((lowered + 249) / 250 * 250) % 250 == 0) by (nonlinear_arith)
        requires lowered >= 0;
    assert((raised / 250 * 250) % 250 == 0) by (nonlinear_arith)
        requires raised >= 0;
    assert((lowered + 249) / 250 * 250 <= interval + 249) by (nonlinear_arith)
        requires lowered >= 0, lowered <= interval;
    if interval % 250 == 0 && 250 <= interval < 10000 {
        let up = interval + 250;
        assert(up / 250 * 250 == up) by (nonlinear_arith)
            requires up % 250 == 0;
        let low2 = up - 250;
        assert((low2 + 249) / 250 * 250 == low2) by (nonlinear_arith)
            requires low2 % 250 == 0, low2 >= 0;
    }
    if interval % 250 == 0 && 250 < interval <= 10000 {
        let low = interval - 250;
        assert((low + 249) / 250 * 250 == low) by (nonlinear_arith)
            requires low % 250 == 0, low >= 0;
        let up2 = low + 250;
        assert(up2 / 250 * 250 == up2) by (nonlinear_arith)
            requires up2 % 250 == 0;
    }
}

/// Normalizing leaves the interval within the allowed range, and a
/// normalized interval unchanged.
pub proof fn lemma_normalize(interval: u32)
    ensures
        TUI_MIN_MS <= clamp_interval(interval) <= TUI_MAX_MS,
        clamp_interval(clamp_interval(interval)) == clamp_interval(interval),
        TUI_MIN_MS <= interval <= TUI_MAX_MS ==> clamp_interval(interval) == interval,
{
}

} // verus!
