use macmon_graph::gradient::{ColorGradient, ColorPalette, GradientTheme};

#[test]
fn gradient_endpoints() {
    let g = ColorGradient::new((0, 0, 0), None, (255, 255, 255));
    assert_eq!(g.at(0), (0, 0, 0));
    assert_eq!(g.at(100), (255, 255, 255));
    assert_eq!(g.at(50), (128, 128, 128));
}

#[test]
fn gradient_with_mid() {
    let g = ColorGradient::new((0, 0, 0), Some((255, 0, 0)), (255, 255, 255));
    assert_eq!(g.at(0), (0, 0, 0));
    assert_eq!(g.at(50), (255, 0, 0));
    assert_eq!(g.at(100), (255, 255, 255));
}

#[test]
fn cpu_gradient_endpoints() {
    let g = ColorGradient::from_theme(GradientTheme::Cpu);
    assert_eq!(g.at(0), (0x77, 0xca, 0x9b)); // green
    assert_eq!(g.at(50), (0xcb, 0xc0, 0x6c)); // yellow
    assert_eq!(g.at(100), (0xdc, 0x4c, 0x4c)); // red
}

#[test]
fn clamps_above_100() {
    let g = ColorGradient::from_theme(GradientTheme::Cpu);
    assert_eq!(g.at(255), g.at(100));
}

#[test]
fn synthwave_cpu_gradient_endpoints() {
    let g = ColorGradient::from_palette(GradientTheme::Cpu, ColorPalette::Synthwave);
    assert_eq!(g.at(0), (0x05, 0xd9, 0xe8));
    assert_eq!(g.at(50), (0xd3, 0x00, 0xc5));
    assert_eq!(g.at(100), (0xff, 0x2a, 0x6d));
}

#[test]
fn hacker_cpu_gradient_endpoints() {
    let g = ColorGradient::from_palette(GradientTheme::Cpu, ColorPalette::Hacker);
    assert_eq!(g.at(0), (0x00, 0x2b, 0x00));
    assert_eq!(g.at(50), (0x00, 0xb3, 0x00));
    assert_eq!(g.at(100), (0x39, 0xff, 0x14));
}

#[test]
fn aqua_cpu_gradient_endpoints() {
    let g = ColorGradient::from_palette(GradientTheme::Cpu, ColorPalette::Aqua);
    assert_eq!(g.at(0), (0x00, 0x66, 0x66));
    assert_eq!(g.at(50), (0xff, 0xc1, 0x50));
    assert_eq!(g.at(100), (0xff, 0x5f, 0x57));
}

const THEMES: [GradientTheme; 9] = [
    GradientTheme::Cpu,
    GradientTheme::Temp,
    GradientTheme::Free,
    GradientTheme::Cached,
    GradientTheme::Available,
    GradientTheme::Used,
    GradientTheme::Download,
    GradientTheme::Upload,
    GradientTheme::Process,
];

const PALETTES: [ColorPalette; 4] =
    [ColorPalette::Btop, ColorPalette::Synthwave, ColorPalette::Hacker, ColorPalette::Aqua];

#[test]
fn every_theme_passes_through_its_colors() {
    for &palette in PALETTES.iter() {
        for &theme in THEMES.iter() {
            let (start, mid, end) = palette.colors(theme);
            let g = ColorGradient::from_palette(theme, palette);
            assert_eq!(g.at(0), start);
            assert_eq!(g.at(50), mid);
            assert_eq!(g.at(100), end);
        }
    }
}

#[test]
fn theme_colors_are_btop_colors() {
    for &theme in THEMES.iter() {
        assert_eq!(theme.colors(), ColorPalette::Btop.colors(theme));
        assert_eq!(ColorGradient::from_theme(theme).at(37), ColorGradient::from_palette(theme, ColorPalette::Btop).at(37));
    }
    assert_eq!(
        GradientTheme::Temp.colors(),
        ((0x48, 0x97, 0xd4), (0x54, 0x74, 0xe8), (0xff, 0x40, 0xb6))
    );
    assert_eq!(
        ColorPalette::Aqua.colors(GradientTheme::Process),
        ((0x00, 0x44, 0x55), (0x00, 0x99, 0xb4), (0x66, 0xff, 0xe6))
    );
}

#[test]
fn stops_round_to_nearest() {
    let g = ColorGradient::new((0, 0, 0), None, (255, 255, 255));
    // 255 * 25 / 100 = 63.75, 255 / 100 = 2.55, 255 * 99 / 100 = 252.45
    assert_eq!(g.at(25), (64, 64, 64));
    assert_eq!(g.at(1), (3, 3, 3));
    assert_eq!(g.at(99), (252, 252, 252));
    // a half rounds up
    let h = ColorGradient::new((0, 10, 20), None, (1, 11, 21));
    assert_eq!(h.at(50), (1, 11, 21));
    assert_eq!(h.at(49), (0, 10, 20));
    // falling channels
    let d = ColorGradient::new((200, 100, 0), Some((100, 100, 100)), (0, 0, 200));
    assert_eq!(d.at(25), (150, 100, 50));
    assert_eq!(d.at(75), (50, 50, 150));
    assert_eq!(d.at(51), (98, 98, 102));
}

#[test]
fn stops_stay_between_their_ends() {
    let start = (10, 250, 128);
    let mid = (240, 3, 128);
    let end = (0, 0, 255);
    let g = ColorGradient::new(start, Some(mid), end);
    for v in 0u8..=100 {
        let (r, gr, b) = g.at(v);
        let (a, z) = if v <= 50 { (start, mid) } else { (mid, end) };
        assert!(a.0.min(z.0) <= r && r <= a.0.max(z.0));
        assert!(a.1.min(z.1) <= gr && gr <= a.1.max(z.1));
        assert!(a.2.min(z.2) <= b && b <= a.2.max(z.2));
    }
}

#[test]
fn default_and_clone() {
    let d = ColorGradient::default();
    let c = ColorGradient::from_theme(GradientTheme::Cpu);
    let copy = d.clone();
    for v in [0u8, 13, 50, 77, 100, 200] {
        assert_eq!(d.at(v), c.at(v));
        assert_eq!(copy.at(v), d.at(v));
    }
    assert_eq!(ColorPalette::default(), ColorPalette::Btop);
}

#[test]
fn halves_that_double_precision_rounds_down() {
    // 225 - 225 * 0.54 evaluates to 103.49999999999999 in f64
    let g = ColorGradient::new((225, 225, 225), Some((0, 0, 0)), (0, 0, 0));
    assert_eq!(g.at(27), (103, 103, 103));
    // 150 * 0.57 evaluates just under 85.5
    let up = ColorGradient::new((0, 0, 0), None, (150, 150, 150));
    assert_eq!(up.at(57), (85, 85, 85));
    // the same step from a higher start lands on the exact half
    let low = ColorGradient::new((249, 250, 249), None, (99, 100, 99));
    assert_eq!(low.at(81), (127, 129, 127));
    // the second segment of a three-color gradient
    let seg = ColorGradient::new((9, 9, 9), Some((0, 2, 27)), (25, 25, 25));
    assert_eq!(seg.at(79), (14, 15, 26));
}
