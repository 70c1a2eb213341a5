//! Theming for a desktop GUI toolkit: palette overrides, widget schemes that
//! replace the drawing of stock frame types, and widget themes that do both.
//!
//! The toolkit's global styling state is modelled by [`style::Style`], a
//! registry that every `apply` writes into; a host program then hands the
//! registry's contents to the toolkit.
pub mod style;
pub mod color_theme;
pub mod widget;


