//! Raster images as grids of ASCII glyphs, and the state of the interactive
//! session in which the grid's size and gamma are tuned.
//!
//! - [`converter`] turns an image into text: it averages blocks of pixels,
//!   weighs the mean colour to a luminance, adjusts it by a tone curve and looks
//!   up a glyph. [`sampling`] holds the arithmetic and what is proved of it,
//!   [`glyph`] the ramp, [`tone`] the curves and [`pixels`] the access to the
//!   image.
//! - [`session`] is the state machine of the live preview, [`tick`] its cadence
//!   and [`layout`] what it puts on the screen; [`text`] writes the numbers.

pub mod converter;
pub mod glyph;
pub mod layout;
pub mod pixels;
pub mod sampling;
pub mod session;
pub mod text;
pub mod tick;
pub mod tone;
