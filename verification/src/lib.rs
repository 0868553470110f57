//! A terminal colour theme derived from perceptual parameters.
//!
//! A palette table gives lightness, chroma and hue for every slot of the
//! theme. From it the engine derives a normal and a bright colour for each
//! of the eight ANSI accents, a background, a foreground and a ladder of
//! background tints, and renders the set as a preview for the terminal or
//! as a WezTerm colour scheme file.
//!
//! All arithmetic in this crate is on integers. The step from a clamped
//! perceptual colour to an 8-bit sRGB colour is the caller's: it is handed
//! to the engine as a function.
pub mod color;
pub mod escape;
pub mod perceptual;
pub mod preview;
pub mod scheme;
pub mod slot;
pub mod table;
pub mod wezterm;
