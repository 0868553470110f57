//! The palette table: for every slot the base parameters its colours are
//! derived from, and the standard table of this theme.
//!
//! Parameters are integers in millionths: a lightness of 0.29 is `290_000`,
//! a hue of 221.11 degrees is `221_110_000`. A table therefore cannot hold
//! anything that is not a finite number.
use vstd::prelude::*;
use crate::perceptual::{bright_of, normal_of, plain_of, Perceptual};
use crate::slot::{Accent, Tint};

verus! {

/// The hue of red, in millionths of a degree.
pub const RED_HUE: i32 = 6_000_000;

/// The hue of green.
pub const GREEN_HUE: i32 = 145_000_000;

/// The hue of yellow.
pub const YELLOW_HUE: i32 = 93_000_000;

/// The hue of blue.
pub const BLUE_HUE: i32 = 264_000_000;

/// The hue of magenta.
pub const MAGENTA_HUE: i32 = 300_000_000;

/// The hue of cyan.
pub const CYAN_HUE: i32 = 210_000_000;

/// The highest chroma the theme is tuned for, in millionths.
pub const CHROMA_MAX: i32 = 370_000;

/// The chroma of an ordinary accent.
pub const CHROMA_STD: i32 = 240_000;

/// The chroma of red, which is pushed a tenth past the ordinary one.
pub const CHROMA_RED: i32 = CHROMA_STD + 100_000;

/// The hue of the dark half of the ladder.
pub const DARK_TINT_HUE: i32 = 219_600_000;

/// The hue of the light half of the ladder.
pub const LIGHT_TINT_HUE: i32 = 90_000_000;

/// The base parameters of one slot, in millionths.
#[derive(Clone, Copy, Debug, PartialEq, Eq, Hash, Structural)]
pub struct SlotParams {
    pub lightness: i32,
    pub chroma: i32,
    pub hue: i32,
}

impl SlotParams {
    /// The parameters as a perceptual colour, taken as they are.
    pub open spec fn plain(self) -> Perceptual {
        plain_of(self.lightness, self.chroma, self.hue)
    }

    /// The perceptual colour of the slot's normal variant.
    pub open spec fn normal(self) -> Perceptual {
        normal_of(self.lightness, self.chroma, self.hue)
    }

    /// The perceptual colour of the slot's bright variant.
    pub open spec fn bright(self) -> Perceptual {
        bright_of(self.lightness, self.chroma, self.hue)
    }
}

/// The palette table.
///
/// `accents` is in ANSI order and `tints` runs from the darkest to the
/// lightest, so an [`Accent`] or a [`Tint`] finds its entry by its index.
/// The accents give a normal and a bright colour each; of the background
/// only the normal variant is used and of the foreground only the bright
/// one; the tints are converted as they stand.
#[derive(Clone, Copy, Debug, PartialEq, Eq)]
pub struct Palette {
    pub accents: [SlotParams; 8],
    pub background: SlotParams,
    pub foreground: SlotParams,
    pub tints: [SlotParams; 6],
}

/// The accents of the standard table, in ANSI order.
pub open spec fn standard_accents() -> Seq<SlotParams> {
    seq![
        SlotParams { lightness: 420_000, chroma: 30_000, hue: CYAN_HUE },
        SlotParams { lightness: 600_000, chroma: CHROMA_RED, hue: RED_HUE },
        SlotParams { lightness: 800_000, chroma: CHROMA_STD, hue: GREEN_HUE },
        SlotParams { lightness: 850_000, chroma: CHROMA_STD, hue: YELLOW_HUE },
        SlotParams { lightness: 800_000, chroma: CHROMA_STD, hue: BLUE_HUE },
        SlotParams { lightness: 700_000, chroma: CHROMA_STD, hue: MAGENTA_HUE },
        SlotParams { lightness: 800_000, chroma: CHROMA_STD, hue: CYAN_HUE },
        SlotParams { lightness: 1_450_000, chroma: 20_000, hue: GREEN_HUE },
    ]
}

/// The background of the standard table.
pub open spec fn standard_background() -> SlotParams {
    SlotParams { lightness: 290_000, chroma: 39_000, hue: 221_110_000 }
}

/// The foreground of the standard table: a grey, with no chroma at all.
pub open spec fn standard_foreground() -> SlotParams {
    SlotParams { lightness: 800_000, chroma: 0, hue: 0 }
}

/// The ladder of the standard table, from the darkest tint to the lightest.
pub open spec fn standard_tints() -> Seq<SlotParams> {
    seq![
        SlotParams { lightness: 200_000, chroma: 50_000, hue: DARK_TINT_HUE },
        SlotParams { lightness: 274_000, chroma: 50_000, hue: DARK_TINT_HUE },
        SlotParams { lightness: 321_000, chroma: 53_000, hue: DARK_TINT_HUE },
        SlotParams { lightness: 934_000, chroma: 31_000, hue: LIGHT_TINT_HUE },
        SlotParams { lightness: 977_000, chroma: 12_000, hue: LIGHT_TINT_HUE },
        SlotParams { lightness: 1_037_000, chroma: 12_000, hue: LIGHT_TINT_HUE },
    ]
}

impl Palette {
    /// The entry of an accent.
    pub open spec fn accent(self, accent: Accent) -> SlotParams {
        self.accents[accent.position()]
    }

    /// The entry of a tint.
    pub open spec fn tint(self, tint: Tint) -> SlotParams {
        self.tints[tint.position()]
    }

    /// The standard table of this theme.
    pub fn standard() -> (palette: Palette)
        ensures
            palette.accents@ == standard_accents(),
            palette.background == standard_background(),
            palette.foreground == standard_foreground(),
            palette.tints@ == standard_tints(),
    {
        let palette = Palette {
            accents: [
                SlotParams { lightness: 420_000, chroma: 30_000, hue: CYAN_HUE },
                SlotParams { lightness: 600_000, chroma: CHROMA_RED, hue: RED_HUE },
                SlotParams { lightness: 800_000, chroma: CHROMA_STD, hue: GREEN_HUE },
                SlotParams { lightness: 850_000, chroma: CHROMA_STD, hue: YELLOW_HUE },
                SlotParams { lightness: 800_000, chroma: CHROMA_STD, hue: BLUE_HUE },
                SlotParams { lightness: 700_000, chroma: CHROMA_STD, hue: MAGENTA_HUE },
                SlotParams { lightness: 800_000, chroma: CHROMA_STD, hue: CYAN_HUE },
                SlotParams { lightness: 1_450_000, chroma: 20_000, hue: GREEN_HUE },
            ],
            background: SlotParams { lightness: 290_000, chroma: 39_000, hue: 221_110_000 },
            foreground: SlotParams { lightness: 800_000, chroma: 0, hue: 0 },
            tints: [
                SlotParams { lightness: 200_000, chroma: 50_000, hue: DARK_TINT_HUE },
                SlotParams { lightness: 274_000, chroma: 50_000, hue: DARK_TINT_HUE },
                SlotParams { lightness: 321_000, chroma: 53_000, hue: DARK_TINT_HUE },
                SlotParams { lightness: 934_000, chroma: 31_000, hue: LIGHT_TINT_HUE },
                SlotParams { lightness: 977_000, chroma: 12_000, hue: LIGHT_TINT_HUE },
                SlotParams { lightness: 1_037_000, chroma: 12_000, hue: LIGHT_TINT_HUE },
            ],
        };
        assert(palette.accents@ =~= standard_accents());
        assert(palette.tints@ =~= standard_tints());
        palette
    }

    /// The entry of an accent.
    pub fn accent_params(&self, accent: Accent) -> (params: SlotParams)
        ensures
            params == self.accent(accent),
    {
        self.accents[accent.index()]
    }

    /// The entry of a tint.
    pub fn tint_params(&self, tint: Tint) -> (params: SlotParams)
        ensures
            params == self.tint(tint),
    {
        self.tints[tint.index()]
    }
}

} // verus!
