use fltk_theme::color_theme::{ColorMap, ColorTheme};
use fltk_theme::style::{Look, SchemeType, Style, ThemeType};
use fltk_theme::widget::{
    activated_color, tones, WidgetScheme, WidgetTheme, BACKGROUND, BACKGROUND2, FOREGROUND, FREE,
    INACTIVE, SELECTION,
};

const ALL_THEMES: [ThemeType; 8] = [
    ThemeType::Classic,
    ThemeType::Aero,
    ThemeType::Metro,
    ThemeType::AquaClassic,
    ThemeType::Greybird,
    ThemeType::Blue,
    ThemeType::Dark,
    ThemeType::HighContrast,
];

const ALL_SCHEMES: [SchemeType; 6] = [
    SchemeType::Aqua,
    SchemeType::Clean,
    SchemeType::Crystal,
    SchemeType::Fluent,
    SchemeType::Gleam,
    SchemeType::SvgBased,
];

const STOCK: [u8; 18] = [2, 3, 4, 5, 6, 7, 8, 9, 10, 11, 12, 13, 18, 20, 21, 26, 28, 29];

type Snapshot = (Vec<Option<(u8, u8, u8)>>, Vec<Option<Look>>, bool);

fn snapshot(s: &Style) -> Snapshot {
    let colors = (0..=255u8).map(|i| s.color(i)).collect();
    let frames = (0..=255u8).map(|i| s.frame(i)).collect();
    (colors, frames, s.redraw_requested())
}

fn cm(index: u8, r: u8, g: u8, b: u8) -> ColorMap {
    ColorMap { index, r, g, b }
}

#[test]
fn new_copies_the_map_in_order() {
    let m = [cm(3, 1, 2, 3), cm(0, 9, 8, 7), cm(3, 4, 5, 6)];
    let t = ColorTheme::new(&m);
    assert_eq!(t.0, m.to_vec());
    let u = ColorTheme::from_colormap(&m);
    assert_eq!(u.0, m.to_vec());
    assert!(ColorTheme::new(&[]).0.is_empty());
}

#[test]
fn fresh_style_is_untouched() {
    let s = Style::new();
    for i in 0..=255u8 {
        assert_eq!(s.color(i), None);
        assert_eq!(s.frame(i), None);
    }
    assert!(!s.redraw_requested());
}

#[test]
fn color_theme_black_then_white_on_slot_one() {
    let mut s = Style::new();
    ColorTheme::new(&[cm(1, 0, 0, 0)]).apply(&mut s);
    assert_eq!(s.color(1), Some((0, 0, 0)));
    ColorTheme::new(&[cm(1, 255, 255, 255)]).apply(&mut s);
    assert_eq!(s.color(1), Some((255, 255, 255)));
}

#[test]
fn color_theme_sets_mapped_slots_only() {
    let mut s = Style::new();
    ColorTheme::new(&[cm(2, 10, 20, 30)]).apply(&mut s);
    let m = [cm(5, 1, 2, 3), cm(255, 4, 5, 6), cm(5, 7, 8, 9), cm(0, 11, 12, 13)];
    ColorTheme::new(&m).apply(&mut s);
    assert_eq!(s.color(5), Some((7, 8, 9)));
    assert_eq!(s.color(255), Some((4, 5, 6)));
    assert_eq!(s.color(0), Some((11, 12, 13)));
    assert_eq!(s.color(2), Some((10, 20, 30)));
    assert_eq!(s.color(1), None);
    assert_eq!(s.color(254), None);
    for i in 0..=255u8 {
        assert_eq!(s.frame(i), None);
    }
    assert!(s.redraw_requested());
}

#[test]
fn empty_color_theme_only_requests_redraw() {
    let mut s = Style::new();
    ColorTheme::new(&[]).apply(&mut s);
    let (colors, frames, redraw) = snapshot(&s);
    assert!(colors.iter().all(|c| c.is_none()));
    assert!(frames.iter().all(|f| f.is_none()));
    assert!(redraw);
}

#[test]
fn color_theme_apply_is_idempotent() {
    let t = ColorTheme::new(&[cm(7, 1, 1, 1), cm(8, 2, 2, 2), cm(7, 3, 3, 3)]);
    let mut once = Style::new();
    t.apply(&mut once);
    let mut twice = Style::new();
    t.apply(&mut twice);
    t.apply(&mut twice);
    assert_eq!(snapshot(&once), snapshot(&twice));
}

#[test]
fn color_theme_last_writer_wins() {
    let a = ColorTheme::new(&[cm(7, 1, 1, 1), cm(8, 2, 2, 2)]);
    let b = ColorTheme::new(&[cm(8, 5, 5, 5), cm(9, 6, 6, 6), cm(7, 4, 4, 4)]);
    let mut both = Style::new();
    a.apply(&mut both);
    b.apply(&mut both);
    let mut alone = Style::new();
    b.apply(&mut alone);
    assert_eq!(snapshot(&both), snapshot(&alone));
    assert_eq!(both.color(7), Some((4, 4, 4)));
}

#[test]
fn every_widget_theme_applies() {
    for t in ALL_THEMES {
        let w = WidgetTheme::new(t);
        assert_eq!(w.theme_type(), t);
        let mut s = Style::new();
        w.apply(&mut s);
        let c = tones(t);
        assert_eq!(s.color(BACKGROUND), Some(c.background));
        assert_eq!(s.color(BACKGROUND2), Some(c.background2));
        assert_eq!(s.color(FOREGROUND), Some(c.foreground));
        assert_eq!(s.color(INACTIVE), Some(c.inactive));
        assert_eq!(s.color(SELECTION), Some(c.selection));
        assert_eq!(s.color(FREE), Some(c.background));
        assert_eq!(s.color(1), None);
        for i in 0..=255u8 {
            let expected = if STOCK.contains(&i) { Some(Look::Theme(t)) } else { None };
            assert_eq!(s.frame(i), expected);
        }
        assert!(!s.redraw_requested());
    }
}

#[test]
fn dark_theme_colors() {
    let mut s = Style::new();
    WidgetTheme::new(ThemeType::Dark).apply(&mut s);
    assert_eq!(s.color(49), Some((0x32, 0x32, 0x32)));
    assert_eq!(s.color(7), Some((0x41, 0x41, 0x41)));
    assert_eq!(s.color(0), Some((0xFF, 0xFF, 0xFF)));
}

#[test]
fn every_widget_scheme_leaves_colors_alone() {
    for k in ALL_SCHEMES {
        let w = WidgetScheme::new(k);
        assert_eq!(w.scheme_type(), k);
        let mut s = Style::new();
        ColorTheme::new(&[cm(49, 1, 2, 3)]).apply(&mut s);
        w.apply(&mut s);
        assert_eq!(s.color(49), Some((1, 2, 3)));
        assert_eq!(s.color(0), None);
        for i in 0..=255u8 {
            let expected = if STOCK.contains(&i) { Some(Look::Scheme(k)) } else { None };
            assert_eq!(s.frame(i), expected);
        }
    }
}

#[test]
fn widget_theme_and_scheme_are_idempotent() {
    for t in ALL_THEMES {
        let mut once = Style::new();
        WidgetTheme::new(t).apply(&mut once);
        let mut twice = Style::new();
        WidgetTheme::new(t).apply(&mut twice);
        WidgetTheme::new(t).apply(&mut twice);
        assert_eq!(snapshot(&once), snapshot(&twice));
    }
    for k in ALL_SCHEMES {
        let mut once = Style::new();
        WidgetScheme::new(k).apply(&mut once);
        let mut twice = Style::new();
        WidgetScheme::new(k).apply(&mut twice);
        WidgetScheme::new(k).apply(&mut twice);
        assert_eq!(snapshot(&once), snapshot(&twice));
    }
}

#[test]
fn widget_theme_last_writer_wins() {
    for a in ALL_THEMES {
        for b in ALL_THEMES {
            let mut both = Style::new();
            WidgetTheme::new(a).apply(&mut both);
            WidgetTheme::new(b).apply(&mut both);
            let mut alone = Style::new();
            WidgetTheme::new(b).apply(&mut alone);
            assert_eq!(snapshot(&both), snapshot(&alone));
        }
    }
}

#[test]
fn clean_scheme_then_dark_theme() {
    let mut s = Style::new();
    WidgetScheme::new(SchemeType::Clean).apply(&mut s);
    assert_eq!(s.frame(2), Some(Look::Scheme(SchemeType::Clean)));
    WidgetTheme::new(ThemeType::Dark).apply(&mut s);
    let mut dark = Style::new();
    WidgetTheme::new(ThemeType::Dark).apply(&mut dark);
    assert_eq!(snapshot(&s), snapshot(&dark));
    for f in STOCK {
        assert_eq!(s.frame(f), Some(Look::Theme(ThemeType::Dark)));
    }
    assert_eq!(s.color(BACKGROUND), Some((0x32, 0x32, 0x32)));
}

#[test]
fn activated_color_picks_by_flag() {
    assert_eq!(activated_color(0x1234_5600, true, 0x0808_0800), 0x1234_5600);
    assert_eq!(activated_color(0x1234_5600, false, 0x0808_0800), 0x0808_0800);
}

#[test]
fn default_color_map_is_zero() {
    let c = ColorMap::default();
    assert_eq!(c, cm(0, 0, 0, 0));
}
