use macmon_graph::config::{
    Config, GraphColorPalette, GraphSymbol, TermColor, ViewType, TUI_MAX_MS, TUI_MIN_MS,
};
use macmon_graph::gradient::ColorPalette;
use macmon_graph::symbols::SymbolSet;

#[test]
fn graph_color_cycles_through_modes() {
    let mut cfg = Config::default();
    assert!(cfg.colored_graphs);
    assert_eq!(cfg.color_palette, GraphColorPalette::Btop);

    cfg.next_graph_color();
    assert!(cfg.colored_graphs);
    assert_eq!(cfg.color_palette, GraphColorPalette::Synthwave);

    cfg.next_graph_color();
    assert!(cfg.colored_graphs);
    assert_eq!(cfg.color_palette, GraphColorPalette::Hacker);

    cfg.next_graph_color();
    assert!(cfg.colored_graphs);
    assert_eq!(cfg.color_palette, GraphColorPalette::Aqua);

    cfg.next_graph_color();
    assert!(!cfg.colored_graphs);
    assert_eq!(cfg.color_palette, GraphColorPalette::Btop);

    cfg.next_graph_color();
    assert!(cfg.colored_graphs);
    assert_eq!(cfg.color_palette, GraphColorPalette::Btop);
}

#[test]
fn graph_symbol_maps_to_library_symbol_set() {
    assert_eq!(GraphSymbol::Braille.to_symbol_set(), SymbolSet::Braille);
    assert_eq!(GraphSymbol::Block.to_symbol_set(), SymbolSet::Block);
    assert_eq!(GraphSymbol::TTY.to_symbol_set(), SymbolSet::TTY);
}

#[test]
fn graph_palette_maps_to_library_palette() {
    assert_eq!(GraphColorPalette::Btop.to_palette(), ColorPalette::Btop);
    assert_eq!(GraphColorPalette::Synthwave.to_palette(), ColorPalette::Synthwave);
    assert_eq!(GraphColorPalette::Hacker.to_palette(), ColorPalette::Hacker);
    assert_eq!(GraphColorPalette::Aqua.to_palette(), ColorPalette::Aqua);
    assert_eq!(GraphColorPalette::default(), GraphColorPalette::Btop);
}

#[test]
fn defaults() {
    let cfg = Config::default();
    assert_eq!(cfg.view_type, ViewType::Sparkline);
    assert_eq!(cfg.color, TermColor::Green);
    assert_eq!(cfg.interval, 1000);
    assert!(!cfg.per_core_view);
    assert_eq!(cfg.graph_symbol, GraphSymbol::Braille);
    assert!(cfg.colored_graphs);
    assert_eq!(cfg.color_palette, GraphColorPalette::Btop);
}

#[test]
fn color_cycles_through_accents() {
    let mut cfg = Config::default();
    let expected = [
        TermColor::Yellow,
        TermColor::Red,
        TermColor::Blue,
        TermColor::Magenta,
        TermColor::Cyan,
        TermColor::Reset,
        TermColor::Green,
    ];
    for want in expected {
        cfg.next_color();
        assert_eq!(cfg.color, want);
    }
    cfg.color = TermColor::Rgb(1, 2, 3);
    cfg.next_color();
    assert_eq!(cfg.color, TermColor::Green);
    cfg.color = TermColor::White;
    cfg.next_color();
    assert_eq!(cfg.color, TermColor::Green);
    // nothing else moves
    assert_eq!(cfg.interval, 1000);
    assert_eq!(cfg.view_type, ViewType::Sparkline);
}

#[test]
fn view_symbol_and_core_toggles() {
    let mut cfg = Config::default();
    cfg.next_view_type();
    assert_eq!(cfg.view_type, ViewType::Gauge);
    cfg.next_view_type();
    assert_eq!(cfg.view_type, ViewType::Sparkline);

    cfg.next_graph_symbol();
    assert_eq!(cfg.graph_symbol, GraphSymbol::Block);
    cfg.next_graph_symbol();
    assert_eq!(cfg.graph_symbol, GraphSymbol::TTY);
    cfg.next_graph_symbol();
    assert_eq!(cfg.graph_symbol, GraphSymbol::Braille);

    cfg.toggle_per_core_view();
    assert!(cfg.per_core_view);
    cfg.toggle_per_core_view();
    assert!(!cfg.per_core_view);
}

#[test]
fn plain_graphs_with_another_palette_return_to_btop() {
    let mut cfg = Config::default();
    cfg.colored_graphs = false;
    cfg.color_palette = GraphColorPalette::Hacker;
    cfg.next_graph_color();
    assert!(cfg.colored_graphs);
    assert_eq!(cfg.color_palette, GraphColorPalette::Btop);
}

fn interval_after(start: u32, up: bool) -> u32 {
    let mut cfg = Config::default();
    cfg.interval = start;
    if up {
        cfg.inc_interval();
    } else {
        cfg.dec_interval();
    }
    cfg.interval
}

#[test]
fn interval_steps() {
    assert_eq!(interval_after(1000, true), 1250);
    assert_eq!(interval_after(1000, false), 750);
    assert_eq!(interval_after(1100, true), 1250);
    assert_eq!(interval_after(1100, false), 1000);
    assert_eq!(interval_after(250, false), TUI_MIN_MS);
    assert_eq!(interval_after(0, false), TUI_MIN_MS);
    assert_eq!(interval_after(10_000, true), TUI_MAX_MS);
    assert_eq!(interval_after(9_900, true), TUI_MAX_MS);
    assert_eq!(interval_after(u32::MAX, true), TUI_MAX_MS);
    assert_eq!(interval_after(u32::MAX, false), 4_294_967_250);
    assert_eq!(interval_after(0, true), 250);
    // a step up undoes a step down
    assert_eq!(interval_after(interval_after(5000, false), true), 5000);
    assert_eq!(interval_after(interval_after(5000, true), false), 5000);
}

#[test]
fn normalize_clamps_interval() {
    let mut cfg = Config::default();
    cfg.interval = 10;
    assert_eq!(cfg.normalize().interval, TUI_MIN_MS);
    cfg.interval = 50_000;
    assert_eq!(cfg.normalize().interval, TUI_MAX_MS);
    cfg.interval = 1234;
    let n = cfg.normalize();
    assert_eq!(n, cfg);
}
