use vstd::prelude::*;
use crate::style::{Rgb, Style, StyleView, SLOTS};

verus! {

/// One override of a palette slot: the slot's index and the red, green and
/// blue channels that it takes.
#[derive(Clone, Copy, Debug, PartialEq, Eq, Structural, Default)]
pub struct ColorMap {
    pub index: u8,
    pub r: u8,
    pub g: u8,
    pub b: u8,
}

impl ColorMap {
    pub open spec fn rgb(self) -> Rgb {
        (self.r, self.g, self.b)
    }
}

/// The palette `p` after the entries of `m` were assigned one after another,
/// in order.
pub open spec fn paint(p: Seq<Option<Rgb>>, m: Seq<ColorMap>) -> Seq<Option<Rgb>>
    decreases m.len(),
{
    if m.len() == 0 {
        p
    } else {
        paint(p, m.drop_last()).update(m.last().index as int, Some(m.last().rgb()))
    }
}

/// The value that the last entry of `m` for palette slot `j` assigns, if any
/// entry of `m` is for `j`.
pub open spec fn last_write(m: Seq<ColorMap>, j: int) -> Option<Rgb>
    decreases m.len(),
{
    if m.len() == 0 {
        None
    } else if m.last().index as int == j {
        Some(m.last().rgb())
    } else {
        last_write(m.drop_last(), j)
    }
}

/// Whether some entry of `m` is for palette slot `j`.
pub open spec fn writes(m: Seq<ColorMap>, j: int) -> bool {
    exists|k: int| 0 <= k < m.len() && m[k].index as int == j
}

proof fn lemma_paint_at(p: Seq<Option<Rgb>>, m: Seq<ColorMap>, j: int)
    requires
        p.len() == SLOTS,
        0 <= j < SLOTS,
    ensures
        paint(p, m).len() == SLOTS,
        paint(p, m)[j] == (match last_write(m, j) {
            Some(c) => Some(c),
            None => p[j],
        }),
    decreases m.len(),
{
    if m.len() > 0 {
        lemma_paint_at(p, m.drop_last(), j);
    }
}

pub(crate) proof fn lemma_paint_len(p: Seq<Option<Rgb>>, m: Seq<ColorMap>)
    requires
        p.len() == SLOTS,
    ensures
        paint(p, m).len() == SLOTS,
{
    lemma_paint_at(p, m, 0);
}

proof fn lemma_last_write_none(m: Seq<ColorMap>, j: int)
    ensures
        last_write(m, j) is None <==> !writes(m, j),
    decreases m.len(),
{
    if m.len() > 0 {
        let d = m.drop_last();
        lemma_last_write_none(d, j);
        if writes(d, j) {
            let k = choose|k: int| 0 <= k < d.len() && d[k].index as int == j;
            assert(m[k] == d[k]);
        }
        if writes(m, j) && m.last().index as int != j {
            let k = choose|k: int| 0 <= k < m.len() && m[k].index as int == j;
            assert(k < d.len() && d[k] == m[k]);
        }
    }
}

proof fn lemma_last_write_last(m: Seq<ColorMap>, k: int)
    requires
        0 <= k < m.len(),
        forall|k2: int| k < k2 < m.len() ==> m[k2].index != m[k].index,
    ensures
        last_write(m, m[k].index as int) == Some(m[k].rgb()),
    decreases m.len(),
{
    if k < m.len() - 1 {
        let d = m.drop_last();
        assert forall|k2: int| k < k2 < d.len() implies d[k2].index != d[k].index by {
            assert(d[k2] == m[k2]);
        }
        lemma_last_write_last(d, k);
        assert(d[k] == m[k]);
    }
}

/// Applying a color theme assigns to every palette slot that it names the
/// value of the last entry for that slot, and leaves every other slot as it
/// was.
pub proof fn lemma_apply_sets_palette(t: ColorTheme, s: StyleView)
    requires
        s.wf(),
    ensures
        t.applied(s).wf(),
        forall|k: int|
            0 <= k < t.0@.len() && (forall|k2: int|
                k < k2 < t.0@.len() ==> t.0@[k2].index != t.0@[k].index) ==> #[trigger] t.applied(
                s,
            ).palette[t.0@[k].index as int] == Some(t.0@[k].rgb()),
        forall|j: int|
            0 <= j < SLOTS && !writes(t.0@, j) ==> #[trigger] t.applied(s).palette[j] == s.palette[j],
{
    let m = t.0@;
    lemma_paint_at(s.palette, m, 0);
    assert forall|k: int|
        0 <= k < m.len() && (forall|k2: int| k < k2 < m.len() ==> m[k2].index != m[k].index)
        implies #[trigger] t.applied(s).palette[m[k].index as int] == Some(m[k].rgb()) by {
        lemma_paint_at(s.palette, m, m[k].index as int);
        lemma_last_write_last(m, k);
    }
    assert forall|j: int| 0 <= j < SLOTS && !writes(m, j) implies #[trigger] t.applied(
        s,
    ).palette[j] == s.palette[j] by {
        lemma_paint_at(s.palette, m, j);
        lemma_last_write_none(m, j);
    }
}

/// Last writer wins on palettes: where `b` assigns every slot that `a`
/// assigns, painting `a` and then `b` gives what painting `b` alone gives.
pub proof fn lemma_paint_last_wins(p: Seq<Option<Rgb>>, a: Seq<ColorMap>, b: Seq<ColorMap>)
    requires
        p.len() == SLOTS,
        forall|j: int| writes(a, j) ==> writes(b, j),
    ensures
        paint(paint(p, a), b) == paint(p, b),
{
    let pa = paint(p, a);
    lemma_paint_at(p, a, 0);
    lemma_paint_at(pa, b, 0);
    lemma_paint_at(p, b, 0);
    assert forall|j: int| 0 <= j < SLOTS implies paint(pa, b)[j] == paint(p, b)[j] by {
        lemma_paint_at(p, a, j);
        lemma_paint_at(pa, b, j);
        lemma_paint_at(p, b, j);
        lemma_last_write_none(a, j);
        lemma_last_write_none(b, j);
    }
    assert(paint(pa, b) =~= paint(p, b));
}

/// Last writer wins: where theme `b` assigns every palette slot that theme
/// `a` assigns, applying `a` and then `b` gives the state that applying `b`
/// alone gives.
pub proof fn lemma_apply_last_wins(a: ColorTheme, b: ColorTheme, s: StyleView)
    requires
        s.wf(),
        forall|j: int| writes(a.0@, j) ==> writes(b.0@, j),
    ensures
        b.applied(a.applied(s)) == b.applied(s),
{
    lemma_paint_last_wins(s.palette, a.0@, b.0@);
}

/// Applying the same color theme twice gives the state that applying it once
/// gives.
pub proof fn lemma_apply_idempotent(t: ColorTheme, s: StyleView)
    requires
        s.wf(),
    ensures
        t.applied(t.applied(s)) == t.applied(s),
{
    lemma_apply_last_wins(t, t, s);
}

/// An ordered list of palette overrides.
#[derive(Clone, Debug)]
pub struct ColorTheme(pub Vec<ColorMap>);

fn copy_map(map: &[ColorMap]) -> (r: Vec<ColorMap>)
    ensures
        r@ == map@,
{
    let mut v: Vec<ColorMap> = Vec::new();
    let mut i: usize = 0;
    while i < map.len()
        invariant
            i <= map@.len(),
            v@ == map@.subrange(0, i as int),
        decreases map@.len() - i,
    {
        v.push(map[i]);
        i = i + 1;
        assert(v@ =~= map@.subrange(0, i as int));
    }
    assert(map@.subrange(0, map@.len() as int) =~= map@);
    v
}

impl ColorTheme {
    /// The state after this theme is applied to `s`: its entries are
    /// assigned in order, then a redraw is requested.
    pub open spec fn applied(self, s: StyleView) -> StyleView {
        StyleView { palette: paint(s.palette, self.0@), redraw: true, ..s }
    }

    /// Load from a color map: the theme holds a copy of `map`, in order.
    pub fn from_colormap(map: &[ColorMap]) -> (r: ColorTheme)
        ensures
            r.0@ == map@,
    {
        ColorTheme(copy_map(map))
    }

    /// Load from a color map: the theme holds a copy of `map`, in order.
    pub fn new(map: &[ColorMap]) -> (r: ColorTheme)
        ensures
            r.0@ == map@,
    {
        ColorTheme(copy_map(map))
    }

    /// Assigns each entry's RGB value to its palette slot, in order, then
    /// requests a redraw.
    pub fn apply(&self, style: &mut Style)
        requires
            old(style).wf(),
        ensures
            final(style).wf(),
            final(style)@ == self.applied(old(style)@),
    {
        let ghost s0 = style@;
        let mut i: usize = 0;
        while i < self.0.len()
            invariant
                i <= self.0@.len(),
                s0.wf(),
                style.wf(),
                style@ == (StyleView {
                    palette: paint(s0.palette, self.0@.subrange(0, i as int)),
                    ..s0
                }),
            decreases self.0@.len() - i,
        {
            let e = self.0[i];
            proof {
                lemma_paint_at(s0.palette, self.0@.subrange(0, i as int), 0);
                assert(self.0@.subrange(0, i as int + 1).drop_last() =~= self.0@.subrange(
                    0,
                    i as int,
                ));
            }
            style.set_color(e.index, (e.r, e.g, e.b));
            i = i + 1;
        }
        assert(self.0@.subrange(0, self.0@.len() as int) =~= self.0@);
        style.request_redraw();
    }
}

} // verus!
