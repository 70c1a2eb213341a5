use vstd::prelude::*;

verus! {

/// Number of slots in the toolkit's palette, and in its table of frame types.
pub const SLOTS: usize = 256;

/// An RGB triple.
pub type Rgb = (u8, u8, u8);

/// Lists supported themes.
#[derive(Clone, Copy, Debug, PartialEq, Eq, Structural)]
pub enum ThemeType {
    /// Windows classic
    Classic,
    /// Windows 7
    Aero,
    /// Windows 8
    Metro,
    /// Classic MacOS
    AquaClassic,
    /// Xfce
    Greybird,
    /// Windows 2000
    Blue,
    /// Dark
    Dark,
    /// High Contrast
    HighContrast,
}

/// Lists supported schemes.
#[derive(Clone, Copy, Debug, PartialEq, Eq, Structural)]
pub enum SchemeType {
    /// A scheme mimicking modern Aqua
    Aqua,
    /// Taken from the NTK fork
    Clean,
    /// Taken from the NTK fork
    Crystal,
    /// Windows 10
    Fluent,
    /// Taken from the NTK fork, a modification of the Gleam scheme
    Gleam,
    /// Draws rounded and oval frame types with scalable vector graphics
    SvgBased,
}

/// The drawing routine registered for a frame type: that of a scheme, or
/// that of a theme.
#[derive(Clone, Copy, Debug, PartialEq, Eq, Structural)]
pub enum Look {
    Scheme(SchemeType),
    Theme(ThemeType),
}

/// What a [`Style`] holds, as mathematical values.
pub struct StyleView {
    /// For each palette index, the RGB value assigned to it, if any.
    pub palette: Seq<Option<Rgb>>,
    /// For each frame type, the drawing routine registered for it, if any.
    pub frames: Seq<Option<Look>>,
    /// Whether a redraw of every window has been requested.
    pub redraw: bool,
}

impl StyleView {
    pub open spec fn wf(self) -> bool {
        &&& self.palette.len() == SLOTS
        &&& self.frames.len() == SLOTS
    }
}

/// The global styling state of the toolkit: palette assignments, frame
/// drawing registrations and a pending redraw request. Slots that were never
/// written hold `None` and keep the toolkit's built-in value.
#[derive(Debug)]
pub struct Style {
    palette: Vec<Option<Rgb>>,
    frames: Vec<Option<Look>>,
    redraw: bool,
}

impl View for Style {
    type V = StyleView;

    closed spec fn view(&self) -> StyleView {
        StyleView { palette: self.palette@, frames: self.frames@, redraw: self.redraw }
    }
}

impl Style {
    pub open spec fn wf(&self) -> bool {
        self@.wf()
    }

    /// A registry in which nothing has been assigned or requested yet.
    pub fn new() -> (r: Style)
        ensures
            r.wf(),
            forall|i: int| 0 <= i < SLOTS ==> r@.palette[i] is None,
            forall|i: int| 0 <= i < SLOTS ==> r@.frames[i] is None,
            !r@.redraw,
    {
        let mut palette: Vec<Option<Rgb>> = Vec::new();
        let mut frames: Vec<Option<Look>> = Vec::new();
        let mut i: usize = 0;
        while i < SLOTS
            invariant
                i <= SLOTS,
                palette@.len() == i,
                frames@.len() == i,
                forall|j: int| 0 <= j < i ==> palette@[j] is None,
                forall|j: int| 0 <= j < i ==> frames@[j] is None,
            decreases SLOTS - i,
        {
            palette.push(None);
            frames.push(None);
            i = i + 1;
        }
        Style { palette, frames, redraw: false }
    }

    /// The RGB value assigned to palette slot `index`, if any.
    pub fn color(&self, index: u8) -> (r: Option<Rgb>)
        requires
            self.wf(),
        ensures
            r == self@.palette[index as int],
    {
        self.palette[index as usize]
    }

    /// The drawing routine registered for frame type `frame`, if any.
    pub fn frame(&self, frame: u8) -> (r: Option<Look>)
        requires
            self.wf(),
        ensures
            r == self@.frames[frame as int],
    {
        self.frames[frame as usize]
    }

    /// Whether a redraw has been requested.
    pub fn redraw_requested(&self) -> (r: bool)
        ensures
            r == self@.redraw,
    {
        self.redraw
    }

    /// Assigns `rgb` to palette slot `index`.
    pub fn set_color(&mut self, index: u8, rgb: Rgb)
        requires
            old(self).wf(),
        ensures
            final(self)@ == (StyleView {
                palette: old(self)@.palette.update(index as int, Some(rgb)),
                ..old(self)@
            }),
    {
        self.palette.set(index as usize, Some(rgb));
    }

    /// Registers the drawing routine `look` for frame type `frame`.
    pub fn set_frame(&mut self, frame: u8, look: Look)
        requires
            old(self).wf(),
        ensures
            final(self)@ == (StyleView {
                frames: old(self)@.frames.update(frame as int, Some(look)),
                ..old(self)@
            }),
    {
        self.frames.set(frame as usize, Some(look));
    }

    /// Requests a redraw of every window.
    pub fn request_redraw(&mut self)
        ensures
            final(self)@ == (StyleView { redraw: true, ..old(self)@ }),
    {
        self.redraw = true;
    }
}

} // verus!
