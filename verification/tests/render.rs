use macmon_graph::gradient::{ColorGradient, GradientTheme};
use macmon_graph::render::{render_levels, row_band, row_clamp_min, row_color};
use macmon_graph::symbols::{SymbolSet, BRAILLE_DOWN, BRAILLE_UP};

#[test]
fn bands_split_the_range() {
    assert_eq!(row_band(1, 0), (100, 0));
    assert_eq!(row_band(3, 0), (100, 67));
    assert_eq!(row_band(3, 1), (67, 33));
    assert_eq!(row_band(3, 2), (33, 0));
    assert_eq!(row_band(8, 7), (13, 0)); // 12.5 rounds up
    assert_eq!(row_band(8, 0), (100, 88)); // 87.5 rounds up
}

#[test]
fn only_the_bottom_row_clamps() {
    assert_eq!(row_clamp_min(3, 2, true), 1);
    assert_eq!(row_clamp_min(3, 1, true), 0);
    assert_eq!(row_clamp_min(3, 2, false), 0);
    assert_eq!(row_clamp_min(1, 0, true), 1);
}

#[test]
fn rows_share_a_color_unless_single() {
    let g = ColorGradient::from_theme(GradientTheme::Cpu);
    assert_eq!(row_color(&g, 1, 0, false), None);
    assert_eq!(row_color(&g, 4, 0, false), Some(g.at(100)));
    assert_eq!(row_color(&g, 4, 3, false), Some(g.at(25)));
    assert_eq!(row_color(&g, 4, 0, true), Some(g.at(25)));
    assert_eq!(row_color(&g, 4, 3, true), Some(g.at(100)));
    assert_eq!(row_color(&g, 3, 1, false), Some(g.at(67)));
}

#[test]
fn one_row_from_levels() {
    // samples 0, 25, 50, 75, 100 in a one-row graph
    let levels = vec![vec![0u8, 1, 2, 3, 4]];
    let shades = vec![0u8, 25, 50, 75, 100];
    let g = ColorGradient::from_theme(GradientTheme::Cpu);
    let symbols = SymbolSet::Braille.table(false);
    let out = render_levels(&levels, &shades, 1, symbols, &g, false);
    assert_eq!(out.rows.len(), 1);
    assert_eq!(out.rows[0].len(), 4); // 5 samples give 4 characters
    assert_eq!(out.rows[0][0], (BRAILLE_UP[1], g.at(25)));
    assert_eq!(out.rows[0][3], (BRAILLE_UP[3 * 5 + 4], g.at(100)));
}

#[test]
fn several_rows_from_levels() {
    let levels = vec![vec![0u8, 4, 0], vec![4u8, 4, 1], vec![4u8, 4, 4]];
    let shades = vec![0u8, 100, 10];
    let g = ColorGradient::from_theme(GradientTheme::Temp);
    let symbols = SymbolSet::Braille.table(false);
    let out = render_levels(&levels, &shades, 3, symbols, &g, false);
    assert_eq!(out.rows.len(), 3);
    for row in &out.rows {
        assert_eq!(row.len(), 2);
    }
    assert_eq!(out.rows[0][0], (BRAILLE_UP[4], g.at(100)));
    assert_eq!(out.rows[1][1], (BRAILLE_UP[21], g.at(67)));
    assert_eq!(out.rows[2][1], (BRAILLE_UP[24], g.at(33)));
}

#[test]
fn inverted_rows_come_bottom_first() {
    let levels = vec![vec![0u8, 1], vec![2u8, 3]];
    let shades = vec![0u8, 0];
    let g = ColorGradient::from_theme(GradientTheme::Cpu);
    let symbols = SymbolSet::Braille.table(true);
    let out = render_levels(&levels, &shades, 2, symbols, &g, true);
    assert_eq!(out.rows.len(), 2);
    assert_eq!(out.rows[0][0], (BRAILLE_DOWN[2 * 5 + 3], g.at(100)));
    assert_eq!(out.rows[1][0], (BRAILLE_DOWN[1], g.at(50)));
}

#[test]
fn nothing_to_draw() {
    let g = ColorGradient::from_theme(GradientTheme::Cpu);
    let symbols = SymbolSet::Braille.table(false);
    let empty: Vec<Vec<u8>> = vec![vec![], vec![], vec![]];
    assert!(render_levels(&empty, &vec![], 3, symbols, &g, false).rows.is_empty());
    let single = vec![vec![2u8], vec![2u8], vec![2u8]];
    assert!(render_levels(&single, &vec![50], 3, symbols, &g, false).rows.is_empty());
    assert!(render_levels(&vec![], &vec![1, 2, 3], 0, symbols, &g, false).rows.is_empty());
}
