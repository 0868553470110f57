//! Perceptual colours, their clamping, and the rule that derives a normal
//! and a bright variant from one set of base parameters.
//!
//! Nothing here computes with floating point. Base parameters are integers
//! in millionths (of the lightness and chroma scales, and of a degree for
//! the hue). The coordinates of a perceptual colour are integers in
//! hundredths of a millionth, so that "65 % of the lightness" is an exact
//! product. The last step, from a clamped perceptual colour to the colour
//! on the display, is floating-point work and is passed in as a function.
use vstd::prelude::*;
use crate::color::DisplayColor;

verus! {

/// How many coordinate units make one unit of a base parameter.
pub const COORDS_PER_PARAM: i64 = 100;

/// The share of the base lightness that the normal variant keeps, in
/// coordinate units per parameter unit: 65 of 100.
pub const NORMAL_LIGHTNESS: i64 = 65;

/// What the bright variant takes off the chroma: 0.02, in coordinate units.
pub const BRIGHT_CHROMA_DROP: i64 = 2_000_000;

/// The lightness of white: one, in coordinate units.
pub const LIGHTNESS_MAX: i64 = 100_000_000;

/// A colour in the perceptual cylinder, in coordinate units (hundredths of a
/// millionth; the hue in degrees).
///
/// No coordinate is confined to a range. A lightness above one, a negative
/// chroma and a hue beyond a full turn are all values of this type;
/// [`Perceptual::clamp`] brings the first two into bounds.
#[derive(Clone, Copy, Debug, PartialEq, Eq, Hash, Structural)]
pub struct Perceptual {
    pub lightness: i64,
    pub chroma: i64,
    pub hue: i64,
}

impl Perceptual {
    /// Whether the colour is within bounds: a lightness from zero to one and
    /// a chroma that is not negative. The hue is free.
    pub open spec fn in_bounds(self) -> bool {
        0 <= self.lightness <= LIGHTNESS_MAX && 0 <= self.chroma
    }

    /// The nearest colour within bounds: the lightness moved into zero to
    /// one, a negative chroma raised to zero, the hue untouched.
    pub open spec fn clamped(self) -> Perceptual {
        Perceptual {
            lightness: if self.lightness < 0 {
                0
            } else if self.lightness > LIGHTNESS_MAX {
                LIGHTNESS_MAX
            } else {
                self.lightness
            },
            chroma: if self.chroma < 0 {
                0
            } else {
                self.chroma
            },
            hue: self.hue,
        }
    }

    /// Brings the colour within bounds. A colour that is within bounds
    /// already comes back unchanged.
    pub fn clamp(self) -> (clamped: Perceptual)
        ensures
            clamped == self.clamped(),
            clamped.in_bounds(),
            self.in_bounds() ==> clamped == self,
    {
        let lightness = if self.lightness < 0 {
            0
        } else if self.lightness > LIGHTNESS_MAX {
            LIGHTNESS_MAX
        } else {
            self.lightness
        };
        let chroma = if self.chroma < 0 {
            0
        } else {
            self.chroma
        };
        Perceptual { lightness, chroma, hue: self.hue }
    }
}

/// The base parameters themselves as a perceptual colour.
pub open spec fn plain_of(l: i32, c: i32, hue: i32) -> Perceptual {
    Perceptual {
        lightness: (l * COORDS_PER_PARAM) as i64,
        chroma: (c * COORDS_PER_PARAM) as i64,
        hue: (hue * COORDS_PER_PARAM) as i64,
    }
}

/// The normal variant: 65 % of the lightness, chroma and hue as given.
pub open spec fn normal_of(l: i32, c: i32, hue: i32) -> Perceptual {
    Perceptual {
        lightness: (l * NORMAL_LIGHTNESS) as i64,
        chroma: (c * COORDS_PER_PARAM) as i64,
        hue: (hue * COORDS_PER_PARAM) as i64,
    }
}

/// The bright variant: the full lightness, the chroma less 0.02, the hue as
/// given. The chroma is not floored here: with a base chroma under 0.02 it
/// is negative, and stays so until the colour is clamped.
pub open spec fn bright_of(l: i32, c: i32, hue: i32) -> Perceptual {
    Perceptual {
        lightness: (l * COORDS_PER_PARAM) as i64,
        chroma: (c * COORDS_PER_PARAM - BRIGHT_CHROMA_DROP) as i64,
        hue: (hue * COORDS_PER_PARAM) as i64,
    }
}

/// Whether `display` can be called on every perceptual colour within
/// bounds.
pub open spec fn displays_all<F: Fn(Perceptual) -> DisplayColor>(display: &F) -> bool {
    forall|p: Perceptual| p.in_bounds() ==> display.requires((p,))
}

/// Whether `display` gives one colour only for each perceptual colour.
pub open spec fn single_valued<F: Fn(Perceptual) -> DisplayColor>(display: &F) -> bool {
    forall|p: Perceptual, a: DisplayColor, b: DisplayColor|
        display.ensures((p,), a) && display.ensures((p,), b) ==> a == b
}

/// The perceptual colour of base parameters taken as they are.
pub fn plain_input(l: i32, c: i32, hue: i32) -> (p: Perceptual)
    ensures
        p == plain_of(l, c, hue),
{
    Perceptual {
        lightness: l as i64 * COORDS_PER_PARAM,
        chroma: c as i64 * COORDS_PER_PARAM,
        hue: hue as i64 * COORDS_PER_PARAM,
    }
}

/// The perceptual colour of the normal variant.
pub fn normal_input(l: i32, c: i32, hue: i32) -> (p: Perceptual)
    ensures
        p == normal_of(l, c, hue),
{
    Perceptual {
        lightness: l as i64 * NORMAL_LIGHTNESS,
        chroma: c as i64 * COORDS_PER_PARAM,
        hue: hue as i64 * COORDS_PER_PARAM,
    }
}

/// The perceptual colour of the bright variant.
pub fn bright_input(l: i32, c: i32, hue: i32) -> (p: Perceptual)
    ensures
        p == bright_of(l, c, hue),
{
    Perceptual {
        lightness: l as i64 * COORDS_PER_PARAM,
        chroma: c as i64 * COORDS_PER_PARAM - BRIGHT_CHROMA_DROP,
        hue: hue as i64 * COORDS_PER_PARAM,
    }
}

/// Converts a perceptual colour: clamps it, then has `display` turn the
/// clamped colour into the colour on the display.
///
/// The clamping is never left out, so `display` sees colours within bounds
/// only and has to accept no others. The result is whatever `display`
/// returned for `color.clamped()`; for a colour within bounds that is
/// `color` itself.
pub fn convert<F: Fn(Perceptual) -> DisplayColor>(color: Perceptual, display: &F) -> (shown: DisplayColor)
    requires
        displays_all(display),
    ensures
        display.ensures((color.clamped(),), shown),
        color.in_bounds() ==> display.ensures((color,), shown),
{
    display(color.clamp())
}

/// Converts base parameters as they are: no variant rule is applied.
pub fn generate_color<F: Fn(Perceptual) -> DisplayColor>(
    l: i32,
    c: i32,
    hue: i32,
    display: &F,
) -> (color: DisplayColor)
    requires
        displays_all(display),
    ensures
        display.ensures((plain_of(l, c, hue).clamped(),), color),
{
    convert(plain_input(l, c, hue), display)
}

/// Derives the normal and the bright colour of one slot.
///
/// The normal colour is the conversion of 65 % of the lightness with chroma
/// and hue unchanged; the bright colour is the conversion of the full
/// lightness with the chroma lowered by 0.02. Every `i32` is accepted for
/// each parameter.
pub fn generate_color_pair<F: Fn(Perceptual) -> DisplayColor>(
    l: i32,
    c: i32,
    hue: i32,
    display: &F,
) -> (pair: (DisplayColor, DisplayColor))
    requires
        displays_all(display),
    ensures
        display.ensures((normal_of(l, c, hue).clamped(),), pair.0),
        display.ensures((bright_of(l, c, hue).clamped(),), pair.1),
{
    let normal = convert(normal_input(l, c, hue), display);
    let bright = convert(bright_input(l, c, hue), display);
    (normal, bright)
}

/// Clamping always ends within bounds, changes nothing that is within
/// bounds, and so changes nothing when done a second time.
pub proof fn lemma_clamp_settles(color: Perceptual)
    ensures
        color.clamped().in_bounds(),
        color.in_bounds() <==> color.clamped() == color,
        color.clamped().clamped() == color.clamped(),
{
}

/// With a display function that gives one colour only for each input, a
/// conversion depends on the clamped colour and on nothing else: the same
/// colour converts to the same result every time, and so do two colours
/// that clamping makes the same.
pub proof fn lemma_one_conversion<F: Fn(Perceptual) -> DisplayColor>(
    display: &F,
    first: Perceptual,
    second: Perceptual,
    first_shown: DisplayColor,
    second_shown: DisplayColor,
)
    requires
        single_valued(display),
        first.clamped() == second.clamped(),
        display.ensures((first.clamped(),), first_shown),
        display.ensures((second.clamped(),), second_shown),
    ensures
        first_shown == second_shown,
{
}

/// Clamping moves no coordinate further than it has to: the hue stays, a
/// lightness or chroma within its range stays, and one outside lands on
/// the end of the range that it passed.
pub proof fn lemma_clamp_is_nearest(color: Perceptual)
    ensures
        color.clamped().hue == color.hue,
        0 <= color.lightness <= LIGHTNESS_MAX ==> color.clamped().lightness == color.lightness,
        color.lightness < 0 ==> color.clamped().lightness == 0,
        color.lightness > LIGHTNESS_MAX ==> color.clamped().lightness == LIGHTNESS_MAX,
        color.chroma >= 0 ==> color.clamped().chroma == color.chroma,
        color.chroma < 0 ==> color.clamped().chroma == 0,
{
}

/// The bright variant differs from the base parameters in the chroma alone,
/// by exactly 0.02. So a base chroma that is not negative never gives a
/// chroma under -0.02, and whatever it gives is clamped to a chroma that is
/// not negative before it is displayed.
pub proof fn lemma_bright_chroma(l: i32, c: i32, hue: i32)
    ensures
        bright_of(l, c, hue).lightness == plain_of(l, c, hue).lightness,
        bright_of(l, c, hue).hue == plain_of(l, c, hue).hue,
        bright_of(l, c, hue).chroma == plain_of(l, c, hue).chroma - BRIGHT_CHROMA_DROP,
        c >= 0 ==> bright_of(l, c, hue).chroma >= -BRIGHT_CHROMA_DROP,
        bright_of(l, c, hue).clamped().chroma >= 0,
        0 <= c <= 20_000 ==> bright_of(l, c, hue).clamped().chroma == 0,
{
}

/// The normal variant differs from the base parameters in the lightness
/// alone, of which it keeps exactly 65 hundredths.
pub proof fn lemma_normal_lightness(l: i32, c: i32, hue: i32)
    ensures
        normal_of(l, c, hue).chroma == plain_of(l, c, hue).chroma,
        normal_of(l, c, hue).hue == plain_of(l, c, hue).hue,
        normal_of(l, c, hue).lightness * 100 == plain_of(l, c, hue).lightness * 65,
{
}

/// Different base parameters never give the same variant: each of the
/// three rules gives one perceptual colour only for one set of parameters.
pub proof fn lemma_variants_tell_parameters(l1: i32, c1: i32, hue1: i32, l2: i32, c2: i32, hue2: i32)
    ensures
        plain_of(l1, c1, hue1) == plain_of(l2, c2, hue2) ==> l1 == l2 && c1 == c2 && hue1 == hue2,
        normal_of(l1, c1, hue1) == normal_of(l2, c2, hue2) ==> l1 == l2 && c1 == c2 && hue1 == hue2,
        bright_of(l1, c1, hue1) == bright_of(l2, c2, hue2) ==> l1 == l2 && c1 == c2 && hue1 == hue2,
{
}

} // verus!
