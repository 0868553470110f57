//! Display colours: 8-bit sRGB triples and their hexadecimal notation.
use vstd::prelude::*;
use vstd::string::*;

verus! {

/// A colour as a terminal shows it: red, green and blue, eight bits each.
///
/// Every value of this type is a colour the display can show; nothing has to
/// be checked after one has been built.
#[derive(Clone, Copy, Debug, PartialEq, Eq, Hash, Structural)]
pub struct DisplayColor {
    pub red: u8,
    pub green: u8,
    pub blue: u8,
}

/// The upper-case hexadecimal digit that stands for `d`, for `0 <= d < 16`.
pub open spec fn hex_digit(d: int) -> char {
    if d < 10 {
        ('0' as int + d) as char
    } else {
        ('A' as int + d - 10) as char
    }
}

/// The two hexadecimal digits of one channel, the high one first.
pub open spec fn hex_pair(channel: u8) -> Seq<char> {
    seq![hex_digit(channel as int / 16), hex_digit(channel as int % 16)]
}

/// Whether a character is a decimal digit or one of `A` to `F`.
pub open spec fn is_upper_hex(c: char) -> bool {
    '0' <= c <= '9' || 'A' <= c <= 'F'
}

/// What a character is worth as a hexadecimal digit. Both cases count.
pub open spec fn hex_value(c: char) -> Option<int> {
    if '0' <= c <= '9' {
        Some(c as int - '0' as int)
    } else if 'A' <= c <= 'F' {
        Some(c as int - 'A' as int + 10)
    } else if 'a' <= c <= 'f' {
        Some(c as int - 'a' as int + 10)
    } else {
        None
    }
}

/// The channel that two hexadecimal digits spell, the high one first.
pub open spec fn channel_of(high: char, low: char) -> u8
    recommends
        hex_value(high) is Some,
        hex_value(low) is Some,
{
    (hex_value(high)->0 * 16 + hex_value(low)->0) as u8
}

/// The colour that six hexadecimal digits spell, if `text` is six such digits.
pub open spec fn parse_hex_spec(text: Seq<char>) -> Option<DisplayColor> {
    if text.len() == 6 && (forall|i: int| 0 <= i < 6 ==> hex_value(#[trigger] text[i]) is Some) {
        Some(
            DisplayColor {
                red: channel_of(text[0], text[1]),
                green: channel_of(text[2], text[3]),
                blue: channel_of(text[4], text[5]),
            },
        )
    } else {
        None
    }
}

/// Formats an sRGB colour in upper-case hexadecimal through
/// `palette`'s `UpperHex` implementation for `Rgb`. With 8-bit channels and
/// no width given, that writes each channel as two zero-padded upper-case
/// digits, red first, then green, then blue, and nothing else.
#[verifier::external_body]
fn upper_hex(red: u8, green: u8, blue: u8) -> (text: String)
    ensures
        text@ == hex_pair(red) + hex_pair(green) + hex_pair(blue),
{
    format!("{:X}", palette::Srgb::<u8>::new(red, green, blue))
}

/// The value of one hexadecimal digit, or `None` for any other character.
fn digit_value(c: char) -> (value: Option<u8>)
    ensures
        match value {
            Some(d) => hex_value(c) == Some(d as int) && d < 16,
            None => hex_value(c) is None,
        },
{
    if '0' <= c && c <= '9' {
        Some((c as u32 - '0' as u32) as u8)
    } else if 'A' <= c && c <= 'F' {
        Some((c as u32 - 'A' as u32 + 10) as u8)
    } else if 'a' <= c && c <= 'f' {
        Some((c as u32 - 'a' as u32 + 10) as u8)
    } else {
        None
    }
}

impl DisplayColor {
    /// Puts three channels together.
    pub fn new(red: u8, green: u8, blue: u8) -> (color: DisplayColor)
        ensures
            color == (DisplayColor { red, green, blue }),
    {
        DisplayColor { red, green, blue }
    }

    /// The colour's six hexadecimal digits: two per channel, upper case,
    /// padded with zero, red first.
    pub open spec fn hex(self) -> Seq<char> {
        hex_pair(self.red) + hex_pair(self.green) + hex_pair(self.blue)
    }

    /// Writes the colour as six upper-case hexadecimal digits.
    pub fn to_hex(&self) -> (text: String)
        ensures
            text@ == self.hex(),
    {
        upper_hex(self.red, self.green, self.blue)
    }

    /// Reads a colour from exactly six hexadecimal digits, upper or lower
    /// case. Anything else, a leading `#` included, gives `None`.
    pub fn parse_hex(text: &str) -> (parsed: Option<DisplayColor>)
        ensures
            parsed == parse_hex_spec(text@),
    {
        if text.unicode_len() != 6 {
            return None;
        }
        let mut digits: [u8; 6] = [0; 6];
        let mut i: usize = 0;
        while i < 6
            invariant
                0 <= i <= 6,
                text@.len() == 6,
                forall|j: int| 0 <= j < i ==> hex_value(#[trigger] text@[j]) == Some(digits[j] as int) && digits[j] < 16,
            decreases 6 - i,
        {
            match digit_value(text.get_char(i)) {
                Some(d) => {
                    digits[i] = d;
                },
                None => {
                    return None;
                },
            }
            i = i + 1;
        }
        Some(
            DisplayColor {
                red: digits[0] * 16 + digits[1],
                green: digits[2] * 16 + digits[3],
                blue: digits[4] * 16 + digits[5],
            },
        )
    }
}

/// A colour is written as exactly six characters, each of them a decimal
/// digit or one of `A` to `F`.
pub proof fn lemma_hex_shape(color: DisplayColor)
    ensures
        color.hex().len() == 6,
        forall|i: int| 0 <= i < 6 ==> is_upper_hex(#[trigger] color.hex()[i]),
{
}

/// Writing a colour in hexadecimal and reading the digits back gives the
/// colour again, channel for channel.
pub proof fn lemma_hex_round_trip(color: DisplayColor)
    ensures
        color.hex().len() == 6,
        parse_hex_spec(color.hex()) == Some(color),
{
    lemma_pair_round_trip(color.red);
    lemma_pair_round_trip(color.green);
    lemma_pair_round_trip(color.blue);
}

/// Different colours are written differently.
pub proof fn lemma_hex_tells_colors(first: DisplayColor, second: DisplayColor)
    ensures
        first.hex() == second.hex() ==> first == second,
{
    lemma_hex_round_trip(first);
    lemma_hex_round_trip(second);
}

/// The two digits of a channel are hexadecimal digits and spell it.
pub proof fn lemma_pair_round_trip(channel: u8)
    ensures
        hex_value(hex_pair(channel)[0]) is Some,
        hex_value(hex_pair(channel)[1]) is Some,
        channel_of(hex_pair(channel)[0], hex_pair(channel)[1]) == channel,
{
}

} // verus!
