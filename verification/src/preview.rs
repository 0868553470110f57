//! The theme as a preview for the terminal: every colour shown under its
//! name, with its hexadecimal form beside it.
use vstd::prelude::*;
use vstd::string::*;
use crate::color::DisplayColor;
use crate::escape::{bg_code, fg_code, render_bg, render_fg, render_reset, reset_code};
use crate::scheme::ColorSet;
use crate::slot::{Accent, Tint};

verus! {

/// The width that a name is padded to.
pub const NAME_WIDTH: usize = 10;

/// What a cell colours: the text itself or what lies behind it.
#[derive(Clone, Copy, Debug, PartialEq, Eq, Hash, Structural)]
pub enum Layer {
    Behind,
    Text,
}

/// A name padded with spaces on the right to [`NAME_WIDTH`] characters. A
/// name that is as long or longer is left as it is.
pub open spec fn padded(name: Seq<char>) -> Seq<char> {
    if name.len() >= NAME_WIDTH {
        name
    } else {
        name + Seq::new((NAME_WIDTH - name.len()) as nat, |i: int| ' ')
    }
}

/// The sequence that colours a layer.
pub open spec fn layer_code(layer: Layer, color: DisplayColor) -> Seq<char> {
    match layer {
        Layer::Behind => bg_code(color),
        Layer::Text => fg_code(color),
    }
}

/// One cell: the colour switched on for a layer, the padded name, `#` and
/// the colour's six digits, and the colours switched off again.
pub open spec fn cell(layer: Layer, name: Seq<char>, color: DisplayColor) -> Seq<char> {
    layer_code(layer, color) + padded(name) + "#"@ + color.hex() + reset_code()
}

/// One line of a pair: the cell of the normal colour under `name`, a
/// space, and the cell of the bright colour under `name` with a `b` behind.
pub open spec fn pair_line(
    layer: Layer,
    name: Seq<char>,
    normal: DisplayColor,
    bright: DisplayColor,
) -> Seq<char> {
    cell(layer, name, normal) + " "@ + cell(layer, name + "b"@, bright) + "\n"@
}

/// The two lines of a pair: the first with the colours behind the text, the
/// second with the text in the colours.
pub open spec fn pair_text(name: Seq<char>, normal: DisplayColor, bright: DisplayColor) -> Seq<char> {
    pair_line(Layer::Behind, name, normal, bright) + pair_line(Layer::Text, name, normal, bright)
}

/// The pair of an accent, under the accent's name.
pub open spec fn accent_text(colors: ColorSet, accent: Accent) -> Seq<char> {
    pair_text(accent.label(), colors.normal_of(accent), colors.bright_of(accent))
}

/// One line of the ladder: a tint and its mirror side by side.
pub open spec fn tint_row(colors: ColorSet, tint: Tint) -> Seq<char> {
    cell(Layer::Behind, tint.label(), colors.tint_of(tint)) + " "@ + cell(
        Layer::Behind,
        tint.mirrored().label(),
        colors.tint_of(tint.mirrored()),
    ) + "\n"@
}

/// The whole preview: the foreground and the background, each shown as a
/// pair of itself; the ladder, each dark tint beside its light mirror, the
/// darkest first; the eight accents in ANSI order; and an empty line.
pub open spec fn preview_text(colors: ColorSet) -> Seq<char> {
    pair_text("deft_fg"@, colors.foreground, colors.foreground)
        + pair_text("deft_bg"@, colors.background, colors.background)
        + tint_row(colors, Tint::VeryVeryDark)
        + tint_row(colors, Tint::VeryDark)
        + tint_row(colors, Tint::Dark)
        + accent_text(colors, Accent::Black)
        + accent_text(colors, Accent::Red)
        + accent_text(colors, Accent::Green)
        + accent_text(colors, Accent::Yellow)
        + accent_text(colors, Accent::Blue)
        + accent_text(colors, Accent::Magenta)
        + accent_text(colors, Accent::Cyan)
        + accent_text(colors, Accent::White)
        + "\n"@
}

/// Appends a name and the spaces that pad it.
fn push_padded(out: &mut String, name: &str)
    ensures
        final(out)@ == old(out)@ + padded(name@),
{
    out.append(name);
    let len = name.unicode_len();
    let mut n: usize = len;
    while n < NAME_WIDTH
        invariant
            len == name@.len(),
            len <= n,
            n <= NAME_WIDTH || n == len,
            out@ == old(out)@ + name@ + Seq::new((n - len) as nat, |i: int| ' '),
        decreases NAME_WIDTH - n,
    {
        proof {
            reveal_strlit(" ");
        }
        out.append(" ");
        n = n + 1;
        assert(out@ =~= old(out)@ + name@ + Seq::new((n - len) as nat, |i: int| ' '));
    }
    assert(out@ =~= old(out)@ + padded(name@));
}

/// Appends one cell.
fn push_cell(out: &mut String, layer: Layer, name: &str, color: DisplayColor)
    ensures
        final(out)@ == old(out)@ + cell(layer, name@, color),
{
    let code = match layer {
        Layer::Behind => render_bg(color),
        Layer::Text => render_fg(color),
    };
    out.append(code.as_str());
    push_padded(out, name);
    out.append("#");
    let hex = color.to_hex();
    out.append(hex.as_str());
    let reset = render_reset();
    out.append(reset.as_str());
    assert(out@ =~= old(out)@ + cell(layer, name@, color));
}

/// Appends one line of a pair.
fn push_pair_line(out: &mut String, layer: Layer, name: &str, normal: DisplayColor, bright: DisplayColor)
    ensures
        final(out)@ == old(out)@ + pair_line(layer, name@, normal, bright),
{
    let mut bright_name = String::from_str(name);
    bright_name.append("b");
    push_cell(out, layer, name, normal);
    out.append(" ");
    push_cell(out, layer, bright_name.as_str(), bright);
    out.append("\n");
    assert(out@ =~= old(out)@ + pair_line(layer, name@, normal, bright));
}

/// Appends the two lines of an accent.
fn push_accent(out: &mut String, colors: &ColorSet, accent: Accent)
    ensures
        final(out)@ == old(out)@ + accent_text(*colors, accent),
{
    let pair = render_color_pair(accent.name(), colors.normal(accent), colors.bright(accent));
    out.append(pair.as_str());
}

/// Appends one line of the ladder.
fn push_tint_row(out: &mut String, colors: &ColorSet, tint: Tint)
    ensures
        final(out)@ == old(out)@ + tint_row(*colors, tint),
{
    let mirror = tint.mirror();
    push_cell(out, Layer::Behind, tint.name(), colors.tint(tint));
    out.append(" ");
    push_cell(out, Layer::Behind, mirror.name(), colors.tint(mirror));
    out.append("\n");
    assert(out@ =~= old(out)@ + tint_row(*colors, tint));
}

/// Shows one colour: its name, padded to ten characters, and its
/// hexadecimal form on a ground of the colour itself. No line end follows.
pub fn render_color(name: &str, color: DisplayColor) -> (text: String)
    ensures
        text@ == cell(Layer::Behind, name@, color),
{
    let mut text = String::new();
    push_cell(&mut text, Layer::Behind, name, color);
    assert(text@ =~= cell(Layer::Behind, name@, color));
    text
}

/// Shows a normal and a bright colour side by side, on two lines: first on
/// grounds of the two colours, then written in them. The bright colour
/// stands under the name with a `b` added.
pub fn render_color_pair(name: &str, normal: DisplayColor, bright: DisplayColor) -> (text: String)
    ensures
        text@ == pair_text(name@, normal, bright),
{
    let mut text = String::new();
    push_pair_line(&mut text, Layer::Behind, name, normal, bright);
    push_pair_line(&mut text, Layer::Text, name, normal, bright);
    assert(text@ =~= pair_text(name@, normal, bright));
    text
}

/// Shows the whole colour set, as [`preview_text`] lays it out.
pub fn render_preview(colors: &ColorSet) -> (text: String)
    ensures
        text@ == preview_text(*colors),
{
    let mut text = render_color_pair("deft_fg", colors.foreground, colors.foreground);
    let background = render_color_pair("deft_bg", colors.background, colors.background);
    text.append(background.as_str());
    push_tint_row(&mut text, colors, Tint::VeryVeryDark);
    push_tint_row(&mut text, colors, Tint::VeryDark);
    push_tint_row(&mut text, colors, Tint::Dark);
    push_accent(&mut text, colors, Accent::Black);
    push_accent(&mut text, colors, Accent::Red);
    push_accent(&mut text, colors, Accent::Green);
    push_accent(&mut text, colors, Accent::Yellow);
    push_accent(&mut text, colors, Accent::Blue);
    push_accent(&mut text, colors, Accent::Magenta);
    push_accent(&mut text, colors, Accent::Cyan);
    push_accent(&mut text, colors, Accent::White);
    text.append("\n");
    text
}

} // verus!
