//! The colour set of a theme and the engine that derives it from a palette
//! table.
use vstd::prelude::*;
use crate::color::DisplayColor;
use crate::perceptual::{displays_all, generate_color, generate_color_pair, single_valued, Perceptual};
use crate::slot::{Accent, Tint};
use crate::table::Palette;

verus! {

/// Every colour of a theme.
///
/// `ansi` holds the normal colours of the eight accents in ANSI order and
/// `brights` their bright colours in the same order; `tints` is the
/// background ladder from the darkest to the lightest.
#[derive(Clone, Copy, Debug, PartialEq, Eq)]
pub struct ColorSet {
    pub ansi: [DisplayColor; 8],
    pub brights: [DisplayColor; 8],
    pub background: DisplayColor,
    pub foreground: DisplayColor,
    pub tints: [DisplayColor; 6],
}

/// Whether `colors` is what `display` makes of `palette`: each accent's
/// normal and bright colour come from its normal and bright variant, the
/// background from its normal variant, the foreground from its bright
/// variant, and each tint from its parameters as they stand, every one of
/// them clamped before it is displayed.
pub open spec fn derived<F: Fn(Perceptual) -> DisplayColor>(
    palette: Palette,
    display: &F,
    colors: ColorSet,
) -> bool {
    &&& forall|i: int|
        0 <= i < 8 ==> display.ensures((palette.accents[i].normal().clamped(),), #[trigger] colors.ansi[i])
    &&& forall|i: int|
        0 <= i < 8 ==> display.ensures((palette.accents[i].bright().clamped(),), #[trigger] colors.brights[i])
    &&& display.ensures((palette.background.normal().clamped(),), colors.background)
    &&& display.ensures((palette.foreground.bright().clamped(),), colors.foreground)
    &&& forall|i: int|
        0 <= i < 6 ==> display.ensures((palette.tints[i].plain().clamped(),), #[trigger] colors.tints[i])
}

impl ColorSet {
    /// The normal colour of an accent.
    pub open spec fn normal_of(self, accent: Accent) -> DisplayColor {
        self.ansi[accent.position()]
    }

    /// The bright colour of an accent.
    pub open spec fn bright_of(self, accent: Accent) -> DisplayColor {
        self.brights[accent.position()]
    }

    /// The colour of a tint.
    pub open spec fn tint_of(self, tint: Tint) -> DisplayColor {
        self.tints[tint.position()]
    }

    /// The normal colour of an accent.
    pub fn normal(&self, accent: Accent) -> (color: DisplayColor)
        ensures
            color == self.normal_of(accent),
    {
        self.ansi[accent.index()]
    }

    /// The bright colour of an accent.
    pub fn bright(&self, accent: Accent) -> (color: DisplayColor)
        ensures
            color == self.bright_of(accent),
    {
        self.brights[accent.index()]
    }

    /// The colour of a tint.
    pub fn tint(&self, tint: Tint) -> (color: DisplayColor)
        ensures
            color == self.tint_of(tint),
    {
        self.tints[tint.index()]
    }
}

/// Derives the colour set of a palette table, walking the table once.
///
/// Every colour of the result is what `display` returned for the clamped
/// perceptual colour that the slot's rule makes of its parameters, as
/// [`derived`] says.
pub fn generate_colors<F: Fn(Perceptual) -> DisplayColor>(palette: &Palette, display: &F) -> (colors: ColorSet)
    requires
        displays_all(display),
    ensures
        derived(*palette, display, colors),
{
    let (background, _) = generate_color_pair(
        palette.background.lightness,
        palette.background.chroma,
        palette.background.hue,
        display,
    );
    let (_, foreground) = generate_color_pair(
        palette.foreground.lightness,
        palette.foreground.chroma,
        palette.foreground.hue,
        display,
    );
    let mut ansi: [DisplayColor; 8] = [background; 8];
    let mut brights: [DisplayColor; 8] = [background; 8];
    let mut i: usize = 0;
    while i < 8
        invariant
            0 <= i <= 8,
            displays_all(display),
            forall|j: int|
                0 <= j < i ==> display.ensures((palette.accents[j].normal().clamped(),), #[trigger] ansi[j]),
            forall|j: int|
                0 <= j < i ==> display.ensures((palette.accents[j].bright().clamped(),), #[trigger] brights[j]),
        decreases 8 - i,
    {
        let params = palette.accents[i];
        let (normal, bright) = generate_color_pair(params.lightness, params.chroma, params.hue, display);
        ansi[i] = normal;
        brights[i] = bright;
        i = i + 1;
    }
    let mut tints: [DisplayColor; 6] = [background; 6];
    let mut k: usize = 0;
    while k < 6
        invariant
            0 <= k <= 6,
            displays_all(display),
            forall|j: int|
                0 <= j < k ==> display.ensures((palette.tints[j].plain().clamped(),), #[trigger] tints[j]),
        decreases 6 - k,
    {
        let params = palette.tints[k];
        tints[k] = generate_color(params.lightness, params.chroma, params.hue, display);
        k = k + 1;
    }
    ColorSet { ansi, brights, background, foreground, tints }
}

/// What [`derived`] says of a place in the accent tables, said of the
/// accent: its two colours are what `display` returned for the clamped
/// variants of its own entry.
pub proof fn lemma_derived_accent<F: Fn(Perceptual) -> DisplayColor>(
    palette: Palette,
    display: &F,
    colors: ColorSet,
    accent: Accent,
)
    requires
        derived(palette, display, colors),
    ensures
        display.ensures((palette.accent(accent).normal().clamped(),), colors.normal_of(accent)),
        display.ensures((palette.accent(accent).bright().clamped(),), colors.bright_of(accent)),
{
    let i = accent.position();
    assert(display.ensures((palette.accents[i].normal().clamped(),), colors.ansi[i]));
    assert(display.ensures((palette.accents[i].bright().clamped(),), colors.brights[i]));
}

/// What [`derived`] says of a place on the ladder, said of the tint: its
/// colour is what `display` returned for its own entry, clamped.
pub proof fn lemma_derived_tint<F: Fn(Perceptual) -> DisplayColor>(
    palette: Palette,
    display: &F,
    colors: ColorSet,
    tint: Tint,
)
    requires
        derived(palette, display, colors),
    ensures
        display.ensures((palette.tint(tint).plain().clamped(),), colors.tint_of(tint)),
{
    let k = tint.position();
    assert(display.ensures((palette.tints[k].plain().clamped(),), colors.tints[k]));
}

/// With a display function that gives one colour only for each input, two
/// accents with the same entry in the table get the same pair of colours.
pub proof fn lemma_same_entry_same_pair<F: Fn(Perceptual) -> DisplayColor>(
    palette: Palette,
    display: &F,
    colors: ColorSet,
    first: Accent,
    second: Accent,
)
    requires
        single_valued(display),
        derived(palette, display, colors),
        palette.accent(first) == palette.accent(second),
    ensures
        colors.normal_of(first) == colors.normal_of(second),
        colors.bright_of(first) == colors.bright_of(second),
{
    lemma_derived_accent(palette, display, colors, first);
    lemma_derived_accent(palette, display, colors, second);
}

/// With a display function that gives one colour only for each input, a
/// palette table has one colour set only: deriving it twice gives the same
/// colours.
pub proof fn lemma_one_color_set<F: Fn(Perceptual) -> DisplayColor>(
    palette: Palette,
    display: &F,
    first: ColorSet,
    second: ColorSet,
)
    requires
        single_valued(display),
        derived(palette, display, first),
        derived(palette, display, second),
    ensures
        first == second,
{
    assert forall|i: int| 0 <= i < 8 implies first.ansi[i] == second.ansi[i] by {
        assert(display.ensures((palette.accents[i].normal().clamped(),), first.ansi[i]));
        assert(display.ensures((palette.accents[i].normal().clamped(),), second.ansi[i]));
    }
    assert forall|i: int| 0 <= i < 8 implies first.brights[i] == second.brights[i] by {
        assert(display.ensures((palette.accents[i].bright().clamped(),), first.brights[i]));
        assert(display.ensures((palette.accents[i].bright().clamped(),), second.brights[i]));
    }
    assert forall|i: int| 0 <= i < 6 implies first.tints[i] == second.tints[i] by {
        assert(display.ensures((palette.tints[i].plain().clamped(),), first.tints[i]));
        assert(display.ensures((palette.tints[i].plain().clamped(),), second.tints[i]));
    }
    assert(first.ansi =~= second.ansi);
    assert(first.brights =~= second.brights);
    assert(first.tints =~= second.tints);
}

} // verus!
