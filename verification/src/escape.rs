//! The terminal escape sequences a preview is drawn with.
//!
//! The sequences are produced by `anstyle`; what follows says which
//! characters they are.
use vstd::prelude::*;
use crate::color::DisplayColor;

verus! {

/// The decimal digit that stands for `d`, for `0 <= d < 10`.
pub open spec fn decimal_digit(d: int) -> char {
    ('0' as int + d) as char
}

/// A channel in decimal, without leading zeros: one to three digits.
pub open spec fn decimal(channel: u8) -> Seq<char> {
    if channel >= 100 {
        seq![
            decimal_digit(channel as int / 100),
            decimal_digit(channel as int / 10 % 10),
            decimal_digit(channel as int % 10),
        ]
    } else if channel >= 10 {
        seq![decimal_digit(channel as int / 10), decimal_digit(channel as int % 10)]
    } else {
        seq![decimal_digit(channel as int)]
    }
}

/// The three channels of a colour as the parameters of an escape sequence
/// that `lead` opens: decimal numbers with `;` between them and `m` behind.
pub open spec fn color_code(lead: Seq<char>, color: DisplayColor) -> Seq<char> {
    lead + decimal(color.red) + ";"@ + decimal(color.green) + ";"@ + decimal(color.blue) + "m"@
}

/// The sequence that sets the colour of the text.
pub open spec fn fg_code(color: DisplayColor) -> Seq<char> {
    color_code("\x1B[38;2;"@, color)
}

/// The sequence that sets the colour behind the text.
pub open spec fn bg_code(color: DisplayColor) -> Seq<char> {
    color_code("\x1B[48;2;"@, color)
}

/// The sequence that puts the terminal back to its own colours.
pub open spec fn reset_code() -> Seq<char> {
    "\x1B[0m"@
}

/// Renders the text colour through `anstyle::RgbColor::render_fg`, which
/// writes `ESC [ 3 8 ; 2 ;`, then the red, green and blue channels in
/// decimal without leading zeros, separated by `;`, then `m`.
#[verifier::external_body]
pub(crate) fn render_fg(color: DisplayColor) -> (code: String)
    ensures
        code@ == fg_code(color),
{
    format!("{}", anstyle::RgbColor(color.red, color.green, color.blue).render_fg())
}

/// Renders the colour behind the text through
/// `anstyle::RgbColor::render_bg`, which writes `ESC [ 4 8 ; 2 ;`, then the
/// red, green and blue channels in decimal without leading zeros, separated
/// by `;`, then `m`.
#[verifier::external_body]
pub(crate) fn render_bg(color: DisplayColor) -> (code: String)
    ensures
        code@ == bg_code(color),
{
    format!("{}", anstyle::RgbColor(color.red, color.green, color.blue).render_bg())
}

/// Renders `anstyle::Reset`, whose display form is the fixed sequence
/// `ESC [ 0 m`.
#[verifier::external_body]
pub(crate) fn render_reset() -> (code: String)
    ensures
        code@ == reset_code(),
{
    format!("{}", anstyle::Reset)
}

} // verus!
