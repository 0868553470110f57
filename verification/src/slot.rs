//! The colour slots of a theme: the eight accents of the ANSI palette and
//! the six tints of the background ladder. Tables are keyed by these, never
//! by a slot's name.
use vstd::prelude::*;

verus! {

/// One of the eight ANSI colours, in the order terminals number them.
#[derive(Clone, Copy, Debug, PartialEq, Eq, Hash, Structural)]
pub enum Accent {
    Black,
    Red,
    Green,
    Yellow,
    Blue,
    Magenta,
    Cyan,
    White,
}

/// One step of the background ladder, from the darkest to the lightest.
#[derive(Clone, Copy, Debug, PartialEq, Eq, Hash, Structural)]
pub enum Tint {
    VeryVeryDark,
    VeryDark,
    Dark,
    Light,
    VeryLight,
    VeryVeryLight,
}

impl Accent {
    /// The accent's ANSI number, 0 to 7.
    pub open spec fn position(self) -> int {
        match self {
            Accent::Black => 0,
            Accent::Red => 1,
            Accent::Green => 2,
            Accent::Yellow => 3,
            Accent::Blue => 4,
            Accent::Magenta => 5,
            Accent::Cyan => 6,
            Accent::White => 7,
        }
    }

    /// The accent's name in a preview.
    pub open spec fn label(self) -> Seq<char> {
        match self {
            Accent::Black => "black"@,
            Accent::Red => "red"@,
            Accent::Green => "green"@,
            Accent::Yellow => "yellow"@,
            Accent::Blue => "blue"@,
            Accent::Magenta => "magenta"@,
            Accent::Cyan => "cyan"@,
            Accent::White => "white"@,
        }
    }

    /// The accent's ANSI number, which is its place in every accent table.
    pub fn index(self) -> (i: usize)
        ensures
            i == self.position(),
            i < 8,
    {
        match self {
            Accent::Black => 0,
            Accent::Red => 1,
            Accent::Green => 2,
            Accent::Yellow => 3,
            Accent::Blue => 4,
            Accent::Magenta => 5,
            Accent::Cyan => 6,
            Accent::White => 7,
        }
    }

    /// The accent's name in a preview.
    pub fn name(self) -> (text: &'static str)
        ensures
            text@ == self.label(),
    {
        match self {
            Accent::Black => "black",
            Accent::Red => "red",
            Accent::Green => "green",
            Accent::Yellow => "yellow",
            Accent::Blue => "blue",
            Accent::Magenta => "magenta",
            Accent::Cyan => "cyan",
            Accent::White => "white",
        }
    }
}

impl Tint {
    /// The tint's place on the ladder, 0 for the darkest to 5.
    pub open spec fn position(self) -> int {
        match self {
            Tint::VeryVeryDark => 0,
            Tint::VeryDark => 1,
            Tint::Dark => 2,
            Tint::Light => 3,
            Tint::VeryLight => 4,
            Tint::VeryVeryLight => 5,
        }
    }

    /// The tint's name in a preview.
    pub open spec fn label(self) -> Seq<char> {
        match self {
            Tint::VeryVeryDark => "bg_vvdark"@,
            Tint::VeryDark => "bg_vdark"@,
            Tint::Dark => "bg_dark"@,
            Tint::Light => "bg_light"@,
            Tint::VeryLight => "bg_vlight"@,
            Tint::VeryVeryLight => "bg_vvlight"@,
        }
    }

    /// The tint as far from the middle of the ladder on the other side.
    pub open spec fn mirrored(self) -> Tint {
        match self {
            Tint::VeryVeryDark => Tint::VeryVeryLight,
            Tint::VeryDark => Tint::VeryLight,
            Tint::Dark => Tint::Light,
            Tint::Light => Tint::Dark,
            Tint::VeryLight => Tint::VeryDark,
            Tint::VeryVeryLight => Tint::VeryVeryDark,
        }
    }

    /// The tint's place on the ladder, which is its place in every tint table.
    pub fn index(self) -> (i: usize)
        ensures
            i == self.position(),
            i < 6,
    {
        match self {
            Tint::VeryVeryDark => 0,
            Tint::VeryDark => 1,
            Tint::Dark => 2,
            Tint::Light => 3,
            Tint::VeryLight => 4,
            Tint::VeryVeryLight => 5,
        }
    }

    /// The tint's name in a preview.
    pub fn name(self) -> (text: &'static str)
        ensures
            text@ == self.label(),
    {
        match self {
            Tint::VeryVeryDark => "bg_vvdark",
            Tint::VeryDark => "bg_vdark",
            Tint::Dark => "bg_dark",
            Tint::Light => "bg_light",
            Tint::VeryLight => "bg_vlight",
            Tint::VeryVeryLight => "bg_vvlight",
        }
    }

    /// The tint as far from the middle of the ladder on the other side:
    /// its place and the other's add up to 5.
    pub fn mirror(self) -> (other: Tint)
        ensures
            other == self.mirrored(),
            other.position() == 5 - self.position(),
    {
        match self {
            Tint::VeryVeryDark => Tint::VeryVeryLight,
            Tint::VeryDark => Tint::VeryLight,
            Tint::Dark => Tint::Light,
            Tint::Light => Tint::Dark,
            Tint::VeryLight => Tint::VeryDark,
            Tint::VeryVeryLight => Tint::VeryVeryDark,
        }
    }
}

} // verus!
