//! The theme as a WezTerm colour scheme file.
use vstd::prelude::*;
use vstd::string::*;
use crate::color::DisplayColor;
use crate::scheme::ColorSet;
use crate::slot::Accent;

verus! {

/// What follows the colours in every scheme file: the description of the
/// theme, which no colour has a part in. The file ends with an empty line.
pub const METADATA: &'static str =
    "\n[metadata]\naliases = [\"dpc\"]\nauthor = \"dpc (http://github.com/dpc)\"\nname = \"dpc\"\norigin_url = \"https://github.com/dpc/dpc-theme\"\nwezterm_version = \"wezterm 0-unstable-2025-01-24\"\n\n";

/// One line of a colour list: the colour in quotes after four spaces, with
/// a `#` before its six digits and a comma behind.
pub open spec fn list_item(color: DisplayColor) -> Seq<char> {
    "    \"#"@ + color.hex() + "\",\n"@
}

/// The lines of a colour list, one for each colour, in order.
pub open spec fn list_items(colors: Seq<DisplayColor>) -> Seq<char>
    decreases colors.len(),
{
    if colors.len() == 0 {
        Seq::empty()
    } else {
        list_items(colors.drop_last()) + list_item(colors.last())
    }
}

/// A colour list under its key, between square brackets.
pub open spec fn list(key: Seq<char>, colors: Seq<DisplayColor>) -> Seq<char> {
    key + " = [\n"@ + list_items(colors) + "]\n"@
}

/// A single colour under its key.
pub open spec fn field(key: Seq<char>, color: DisplayColor) -> Seq<char> {
    key + " = \"#"@ + color.hex() + "\"\n"@
}

/// The colours of a scheme file. The cursor and the selection are drawn in
/// the normal white, with the normal black for what stands on them.
pub open spec fn colors_section(colors: ColorSet) -> Seq<char> {
    "[colors]\n"@
        + list("ansi"@, colors.ansi@)
        + field("background"@, colors.background)
        + list("brights"@, colors.brights@)
        + field("cursor_bg"@, colors.normal_of(Accent::White))
        + field("cursor_border"@, colors.normal_of(Accent::White))
        + field("cursor_fg"@, colors.normal_of(Accent::Black))
        + field("foreground"@, colors.foreground)
        + field("selection_bg"@, colors.normal_of(Accent::White))
        + field("selection_fg"@, colors.normal_of(Accent::Black))
}

/// The whole scheme file of a colour set.
pub open spec fn config_text(colors: ColorSet) -> Seq<char> {
    colors_section(colors) + METADATA@
}

/// A list grows by one line when a colour is added behind the others.
proof fn lemma_list_items_step(colors: Seq<DisplayColor>, n: int)
    requires
        0 <= n < colors.len(),
    ensures
        list_items(colors.take(n + 1)) == list_items(colors.take(n)) + list_item(colors[n]),
{
    assert(colors.take(n + 1).drop_last() =~= colors.take(n));
}

/// Appends a single colour under its key.
fn push_field(out: &mut String, key: &str, color: DisplayColor)
    ensures
        final(out)@ == old(out)@ + field(key@, color),
{
    out.append(key);
    out.append(" = \"#");
    let hex = color.to_hex();
    out.append(hex.as_str());
    out.append("\"\n");
    assert(out@ =~= old(out)@ + field(key@, color));
}

/// Appends a list of eight colours under its key.
fn push_list(out: &mut String, key: &str, colors: &[DisplayColor; 8])
    ensures
        final(out)@ == old(out)@ + list(key@, colors@),
{
    out.append(key);
    out.append(" = [\n");
    let mut i: usize = 0;
    while i < 8
        invariant
            0 <= i <= 8,
            out@ == old(out)@ + key@ + " = [\n"@ + list_items(colors@.take(i as int)),
        decreases 8 - i,
    {
        let hex = colors[i].to_hex();
        out.append("    \"#");
        out.append(hex.as_str());
        out.append("\",\n");
        proof {
            lemma_list_items_step(colors@, i as int);
            assert(out@ =~= old(out)@ + key@ + " = [\n"@ + list_items(colors@.take(i + 1)));
        }
        i = i + 1;
    }
    out.append("]\n");
    assert(colors@.take(8) =~= colors@);
    assert(out@ =~= old(out)@ + list(key@, colors@));
}

/// Writes the scheme file of a colour set: the eight normal colours under
/// `ansi` and the eight bright ones under `brights`, both in ANSI order,
/// the background, the foreground, the cursor and the selection each under
/// its key, every colour as `#` and six upper-case hexadecimal digits, and
/// the description of the theme at the end.
pub fn generate_wezterm_config(colors: &ColorSet) -> (text: String)
    ensures
        text@ == config_text(*colors),
{
    let white = colors.normal(Accent::White);
    let black = colors.normal(Accent::Black);
    let mut text = String::from_str("[colors]\n");
    push_list(&mut text, "ansi", &colors.ansi);
    push_field(&mut text, "background", colors.background);
    push_list(&mut text, "brights", &colors.brights);
    push_field(&mut text, "cursor_bg", white);
    push_field(&mut text, "cursor_border", white);
    push_field(&mut text, "cursor_fg", black);
    push_field(&mut text, "foreground", colors.foreground);
    push_field(&mut text, "selection_bg", white);
    push_field(&mut text, "selection_fg", black);
    text.append(METADATA);
    text
}

} // verus!
