use vstd::prelude::*;
use crate::color_theme::{paint, writes, ColorMap, lemma_paint_last_wins};
use crate::style::{Look, Rgb, SchemeType, Style, StyleView, ThemeType, SLOTS};

verus! {

/// Palette slot of the foreground (text) color.
pub const FOREGROUND: u8 = 0;
/// Palette slot of the background of input and text widgets.
pub const BACKGROUND2: u8 = 7;
/// Palette slot of the color of inactive widgets.
pub const INACTIVE: u8 = 8;
/// Palette slot of the selection color.
pub const SELECTION: u8 = 15;
/// First free palette slot, which themes use for their window color.
pub const FREE: u8 = 16;
/// Palette slot of the widget background color.
pub const BACKGROUND: u8 = 49;

/// The stock frame types whose drawing a scheme or a theme replaces: the
/// raised and sunken boxes and frames (up, down, thin, engraved, embossed),
/// the rounded box and frames, and the oval box and frames.
pub open spec fn is_stock_frame(f: int) -> bool {
    (2 <= f <= 13) || f == 18 || f == 20 || f == 21 || f == 26 || f == 28 || f == 29
}

fn stock_frame(f: u8) -> (r: bool)
    ensures
        r == is_stock_frame(f as int),
{
    (2 <= f && f <= 13) || f == 18 || f == 20 || f == 21 || f == 26 || f == 28 || f == 29
}

/// The frame table `f` after `look` was registered for every stock frame
/// type.
pub open spec fn register(f: Seq<Option<Look>>, look: Look) -> Seq<Option<Look>> {
    Seq::new(f.len(), |j: int| if is_stock_frame(j) { Some(look) } else { f[j] })
}

/// The colors that a theme sets.
#[derive(Clone, Copy, Debug)]
pub struct Tones {
    pub background: Rgb,
    pub background2: Rgb,
    pub foreground: Rgb,
    pub inactive: Rgb,
    pub selection: Rgb,
}

/// The colors of each theme.
pub open spec fn theme_tones(t: ThemeType) -> Tones {
    match t {
        ThemeType::Classic => Tones {
            background: (0xD4, 0xD0, 0xC8),
            background2: (0xFF, 0xFF, 0xFF),
            foreground: (0x00, 0x00, 0x00),
            inactive: (0x5F, 0x5F, 0x5F),
            selection: (0x0A, 0x24, 0x6A),
        },
        ThemeType::Aero => Tones {
            background: (0xF0, 0xF0, 0xF0),
            background2: (0xFF, 0xFF, 0xFF),
            foreground: (0x00, 0x00, 0x00),
            inactive: (0x6F, 0x6F, 0x6F),
            selection: (0x33, 0x99, 0xFF),
        },
        ThemeType::Metro => Tones {
            background: (0xF0, 0xF0, 0xF0),
            background2: (0xFF, 0xFF, 0xFF),
            foreground: (0x00, 0x00, 0x00),
            inactive: (0x6F, 0x6F, 0x6F),
            selection: (0x00, 0x78, 0xD7),
        },
        ThemeType::AquaClassic => Tones {
            background: (0xED, 0xED, 0xED),
            background2: (0xFF, 0xFF, 0xFF),
            foreground: (0x00, 0x00, 0x00),
            inactive: (0x6F, 0x6F, 0x6F),
            selection: (0x38, 0x75, 0xD7),
        },
        ThemeType::Greybird => Tones {
            background: (0xCE, 0xCF, 0xCE),
            background2: (0xFC, 0xFC, 0xFC),
            foreground: (0x3C, 0x3C, 0x3C),
            inactive: (0x5F, 0x5F, 0x5F),
            selection: (0x50, 0xA0, 0xF4),
        },
        ThemeType::Blue => Tones {
            background: (0xEC, 0xE9, 0xD8),
            background2: (0xFF, 0xFF, 0xFF),
            foreground: (0x00, 0x00, 0x00),
            inactive: (0x5F, 0x5F, 0x5F),
            selection: (0x31, 0x6A, 0xC5),
        },
        ThemeType::Dark => Tones {
            background: (0x32, 0x32, 0x32),
            background2: (0x41, 0x41, 0x41),
            foreground: (0xFF, 0xFF, 0xFF),
            inactive: (0x6F, 0x6F, 0x6F),
            selection: (0x62, 0x62, 0x62),
        },
        ThemeType::HighContrast => Tones {
            background: (0x00, 0x00, 0x00),
            background2: (0x00, 0x00, 0x00),
            foreground: (0xFF, 0xFF, 0xFF),
            inactive: (0x00, 0xFF, 0x00),
            selection: (0x1A, 0xEB, 0xFF),
        },
    }
}

/// The colors of theme `t`, as its table of [`Tones`].
pub fn tones(t: ThemeType) -> (r: Tones)
    ensures
        r == theme_tones(t),
{
    match t {
        ThemeType::Classic => Tones {
            background: (0xD4, 0xD0, 0xC8),
            background2: (0xFF, 0xFF, 0xFF),
            foreground: (0x00, 0x00, 0x00),
            inactive: (0x5F, 0x5F, 0x5F),
            selection: (0x0A, 0x24, 0x6A),
        },
        ThemeType::Aero => Tones {
            background: (0xF0, 0xF0, 0xF0),
            background2: (0xFF, 0xFF, 0xFF),
            foreground: (0x00, 0x00, 0x00),
            inactive: (0x6F, 0x6F, 0x6F),
            selection: (0x33, 0x99, 0xFF),
        },
        ThemeType::Metro => Tones {
            background: (0xF0, 0xF0, 0xF0),
            background2: (0xFF, 0xFF, 0xFF),
            foreground: (0x00, 0x00, 0x00),
            inactive: (0x6F, 0x6F, 0x6F),
            selection: (0x00, 0x78, 0xD7),
        },
        ThemeType::AquaClassic => Tones {
            background: (0xED, 0xED, 0xED),
            background2: (0xFF, 0xFF, 0xFF),
            foreground: (0x00, 0x00, 0x00),
            inactive: (0x6F, 0x6F, 0x6F),
            selection: (0x38, 0x75, 0xD7),
        },
        ThemeType::Greybird => Tones {
            background: (0xCE, 0xCF, 0xCE),
            background2: (0xFC, 0xFC, 0xFC),
            foreground: (0x3C, 0x3C, 0x3C),
            inactive: (0x5F, 0x5F, 0x5F),
            selection: (0x50, 0xA0, 0xF4),
        },
        ThemeType::Blue => Tones {
            background: (0xEC, 0xE9, 0xD8),
            background2: (0xFF, 0xFF, 0xFF),
            foreground: (0x00, 0x00, 0x00),
            inactive: (0x5F, 0x5F, 0x5F),
            selection: (0x31, 0x6A, 0xC5),
        },
        ThemeType::Dark => Tones {
            background: (0x32, 0x32, 0x32),
            background2: (0x41, 0x41, 0x41),
            foreground: (0xFF, 0xFF, 0xFF),
            inactive: (0x6F, 0x6F, 0x6F),
            selection: (0x62, 0x62, 0x62),
        },
        ThemeType::HighContrast => Tones {
            background: (0x00, 0x00, 0x00),
            background2: (0x00, 0x00, 0x00),
            foreground: (0xFF, 0xFF, 0xFF),
            inactive: (0x00, 0xFF, 0x00),
            selection: (0x1A, 0xEB, 0xFF),
        },
    }
}

pub open spec fn cmap(index: u8, c: Rgb) -> ColorMap {
    ColorMap { index, r: c.0, g: c.1, b: c.2 }
}

/// The palette entries that set `c`: the background and the free slot take
/// the background color, the other slots their own tone.
pub open spec fn tone_palette(c: Tones) -> Seq<ColorMap> {
    seq![
        cmap(BACKGROUND, c.background),
        cmap(BACKGROUND2, c.background2),
        cmap(FOREGROUND, c.foreground),
        cmap(INACTIVE, c.inactive),
        cmap(SELECTION, c.selection),
        cmap(FREE, c.background),
    ]
}

fn palette_of(c: Tones) -> (r: Vec<ColorMap>)
    ensures
        r@ == tone_palette(c),
{
    let mut v: Vec<ColorMap> = Vec::new();
    v.push(ColorMap { index: BACKGROUND, r: c.background.0, g: c.background.1, b: c.background.2 });
    v.push(ColorMap { index: BACKGROUND2, r: c.background2.0, g: c.background2.1, b: c.background2.2 });
    v.push(ColorMap { index: FOREGROUND, r: c.foreground.0, g: c.foreground.1, b: c.foreground.2 });
    v.push(ColorMap { index: INACTIVE, r: c.inactive.0, g: c.inactive.1, b: c.inactive.2 });
    v.push(ColorMap { index: SELECTION, r: c.selection.0, g: c.selection.1, b: c.selection.2 });
    v.push(ColorMap { index: FREE, r: c.background.0, g: c.background.1, b: c.background.2 });
    assert(v@ =~= tone_palette(c));
    v
}

/// Registers `look` for every stock frame type.
fn register_stock_frames(style: &mut Style, look: Look)
    requires
        old(style).wf(),
    ensures
        final(style).wf(),
        final(style)@ == (StyleView { frames: register(old(style)@.frames, look), ..old(style)@ }),
{
    let ghost s0 = style@;
    let mut f: usize = 0;
    while f < SLOTS
        invariant
            f <= SLOTS,
            s0.wf(),
            style.wf(),
            style@.palette == s0.palette,
            style@.redraw == s0.redraw,
            forall|j: int|
                0 <= j < SLOTS ==> #[trigger] style@.frames[j] == if j < f && is_stock_frame(j) {
                    Some(look)
                } else {
                    s0.frames[j]
                },
        decreases SLOTS - f,
    {
        if stock_frame(f as u8) {
            style.set_frame(f as u8, look);
        }
        f = f + 1;
    }
    assert(style@.frames =~= register(s0.frames, look));
}

/// The color in which a frame is drawn: `c` while the widget being drawn is
/// active, and `dimmed`, the inactive form of `c`, otherwise.
pub fn activated_color(c: u32, active: bool, dimmed: u32) -> (r: u32)
    ensures
        r == if active { c } else { dimmed },
{
    if active {
        c
    } else {
        dimmed
    }
}

/// A widget theme is a scheme plus a set of default colors.
#[derive(Clone, Copy, Debug)]
pub struct WidgetTheme {
    theme: ThemeType,
}

impl WidgetTheme {
    pub closed spec fn kind(self) -> ThemeType {
        self.theme
    }

    /// The state after this theme is applied to `s`: its colors are set and
    /// its drawing is registered for every stock frame type.
    pub open spec fn applied(self, s: StyleView) -> StyleView {
        StyleView {
            palette: paint(s.palette, tone_palette(theme_tones(self.kind()))),
            frames: register(s.frames, Look::Theme(self.kind())),
            ..s
        }
    }

    /// Create a widget theme object.
    pub fn new(theme: ThemeType) -> (r: Self)
        ensures
            r.kind() == theme,
    {
        Self { theme }
    }

    /// The theme that this object applies.
    pub fn theme_type(&self) -> (r: ThemeType)
        ensures
            r == self.kind(),
    {
        self.theme
    }

    /// Apply the widget theme: register its frame drawing and set its colors.
    pub fn apply(&self, style: &mut Style)
        requires
            old(style).wf(),
        ensures
            final(style).wf(),
            final(style)@ == self.applied(old(style)@),
    {
        let colors = palette_of(tones(self.theme));
        register_stock_frames(style, Look::Theme(self.theme));
        let ghost s1 = style@;
        let mut i: usize = 0;
        while i < colors.len()
            invariant
                i <= colors@.len(),
                s1.wf(),
                style.wf(),
                style@ == (StyleView {
                    palette: paint(s1.palette, colors@.subrange(0, i as int)),
                    ..s1
                }),
            decreases colors@.len() - i,
        {
            let e = colors[i];
            proof {
                crate::color_theme::lemma_paint_len(s1.palette, colors@.subrange(0, i as int));
                assert(colors@.subrange(0, i as int + 1).drop_last() =~= colors@.subrange(
                    0,
                    i as int,
                ));
            }
            style.set_color(e.index, (e.r, e.g, e.b));
            i = i + 1;
        }
        assert(colors@.subrange(0, colors@.len() as int) =~= colors@);
    }
}

/// A widget scheme sets the style of drawing a widget without interfering
/// with coloring.
#[derive(Clone, Copy, Debug)]
pub struct WidgetScheme {
    scheme: SchemeType,
}

impl WidgetScheme {
    pub closed spec fn kind(self) -> SchemeType {
        self.scheme
    }

    /// The state after this scheme is applied to `s`: its drawing is
    /// registered for every stock frame type, and nothing else changes.
    pub open spec fn applied(self, s: StyleView) -> StyleView {
        StyleView { frames: register(s.frames, Look::Scheme(self.kind())), ..s }
    }

    /// Create a widget scheme object.
    pub fn new(scheme: SchemeType) -> (r: Self)
        ensures
            r.kind() == scheme,
    {
        Self { scheme }
    }

    /// The scheme that this object applies.
    pub fn scheme_type(&self) -> (r: SchemeType)
        ensures
            r == self.kind(),
    {
        self.scheme
    }

    /// Apply the widget scheme: register its frame drawing.
    pub fn apply(&self, style: &mut Style)
        requires
            old(style).wf(),
        ensures
            final(style).wf(),
            final(style)@ == self.applied(old(style)@),
    {
        register_stock_frames(style, Look::Scheme(self.scheme));
    }
}

proof fn lemma_register_twice(f: Seq<Option<Look>>, a: Look, b: Look)
    ensures
        register(register(f, a), b) == register(f, b),
{
    assert(register(register(f, a), b) =~= register(f, b));
}

proof fn lemma_theme_palettes_same_slots(a: ThemeType, b: ThemeType)
    ensures
        forall|j: int|
            writes(tone_palette(theme_tones(a)), j) ==> writes(tone_palette(theme_tones(b)), j),
{
    let pa = tone_palette(theme_tones(a));
    let pb = tone_palette(theme_tones(b));
    assert forall|j: int| writes(pa, j) implies writes(pb, j) by {
        let k = choose|k: int| 0 <= k < pa.len() && pa[k].index as int == j;
        assert(pb[k].index == pa[k].index);
    }
}

/// Applying a widget theme twice gives the state that applying it once
/// gives.
pub proof fn lemma_theme_idempotent(w: WidgetTheme, s: StyleView)
    requires
        s.wf(),
    ensures
        w.applied(w.applied(s)) == w.applied(s),
{
    lemma_theme_last_wins(w, w, s);
}

/// Last writer wins between widget themes: every theme sets the same palette
/// slots and frame types, so applying `a` and then `b` gives the state that
/// applying `b` alone gives.
pub proof fn lemma_theme_last_wins(a: WidgetTheme, b: WidgetTheme, s: StyleView)
    requires
        s.wf(),
    ensures
        b.applied(a.applied(s)) == b.applied(s),
{
    lemma_theme_palettes_same_slots(a.kind(), b.kind());
    lemma_paint_last_wins(
        s.palette,
        tone_palette(theme_tones(a.kind())),
        tone_palette(theme_tones(b.kind())),
    );
    lemma_register_twice(s.frames, Look::Theme(a.kind()), Look::Theme(b.kind()));
}

/// Applying a widget scheme twice gives the state that applying it once
/// gives.
pub proof fn lemma_scheme_idempotent(w: WidgetScheme, s: StyleView)
    ensures
        w.applied(w.applied(s)) == w.applied(s),
{
    lemma_scheme_last_wins(w, w, s);
}

/// Last writer wins between widget schemes: applying `a` and then `b` gives
/// the state that applying `b` alone gives.
pub proof fn lemma_scheme_last_wins(a: WidgetScheme, b: WidgetScheme, s: StyleView)
    ensures
        b.applied(a.applied(s)) == b.applied(s),
{
    lemma_register_twice(s.frames, Look::Scheme(a.kind()), Look::Scheme(b.kind()));
}

/// A widget theme applied after a widget scheme replaces the scheme's frame
/// drawing: the result is the state that applying the theme alone gives.
pub proof fn lemma_theme_overrides_scheme(a: WidgetScheme, b: WidgetTheme, s: StyleView)
    ensures
        b.applied(a.applied(s)) == b.applied(s),
{
    lemma_register_twice(s.frames, Look::Scheme(a.kind()), Look::Theme(b.kind()));
}

} // verus!
