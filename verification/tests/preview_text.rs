use dpc_theme::color::DisplayColor;
use dpc_theme::preview::{render_color, render_color_pair, render_preview, NAME_WIDTH};
use dpc_theme::scheme::ColorSet;

fn sample() -> ColorSet {
    let mut ansi = [DisplayColor::new(0, 0, 0); 8];
    let mut brights = [DisplayColor::new(0, 0, 0); 8];
    for i in 0..8u8 {
        ansi[i as usize] = DisplayColor::new(0xA0 + i, i, 0x0F);
        brights[i as usize] = DisplayColor::new(0xB0 + i, 0x10 + i, 0xFF);
    }
    let mut tints = [DisplayColor::new(0, 0, 0); 6];
    for i in 0..6u8 {
        tints[i as usize] = DisplayColor::new(i, 0x70 + i, 0xE0 + i);
    }
    ColorSet {
        ansi,
        brights,
        background: DisplayColor::new(1, 2, 3),
        foreground: DisplayColor::new(0xFE, 0xDC, 0xBA),
        tints,
    }
}

fn cell(layer: u8, name: &str, c: DisplayColor) -> String {
    format!(
        "\x1b[{};2;{};{};{}m{:10}#{:02X}{:02X}{:02X}\x1b[0m",
        layer, c.red, c.green, c.blue, name, c.red, c.green, c.blue
    )
}

fn pair(name: &str, normal: DisplayColor, bright: DisplayColor) -> String {
    let bright_name = format!("{}b", name);
    format!(
        "{} {}\n{} {}\n",
        cell(48, name, normal),
        cell(48, &bright_name, bright),
        cell(38, name, normal),
        cell(38, &bright_name, bright)
    )
}

#[test]
fn name_width_is_ten() {
    assert_eq!(NAME_WIDTH, 10);
}

#[test]
fn render_color_shows_name_and_hex_on_the_color() {
    assert_eq!(
        render_color("red", DisplayColor::new(0, 27, 255)),
        "\x1b[48;2;0;27;255mred       #001BFF\x1b[0m"
    );
}

#[test]
fn render_color_writes_channels_without_leading_zeros() {
    assert_eq!(
        render_color("bg_dark", DisplayColor::new(9, 57, 70)),
        "\x1b[48;2;9;57;70mbg_dark   #093946\x1b[0m"
    );
    assert_eq!(
        render_color("x", DisplayColor::new(100, 10, 1)),
        "\x1b[48;2;100;10;1mx         #640A01\x1b[0m"
    );
    assert_eq!(
        render_color("x", DisplayColor::new(0, 0, 0)),
        "\x1b[48;2;0;0;0mx         #000000\x1b[0m"
    );
    assert_eq!(
        render_color("x", DisplayColor::new(255, 200, 109)),
        "\x1b[48;2;255;200;109mx         #FFC86D\x1b[0m"
    );
}

#[test]
fn render_color_pads_short_names_only() {
    let c = DisplayColor::new(1, 2, 3);
    assert_eq!(render_color("", c), "\x1b[48;2;1;2;3m          #010203\x1b[0m");
    assert_eq!(render_color("ninechars", c), "\x1b[48;2;1;2;3mninechars #010203\x1b[0m");
    assert_eq!(render_color("bg_vvlight", c), "\x1b[48;2;1;2;3mbg_vvlight#010203\x1b[0m");
    assert_eq!(render_color("a_longer_name", c), "\x1b[48;2;1;2;3ma_longer_name#010203\x1b[0m");
}

#[test]
fn render_color_counts_characters_not_bytes() {
    let c = DisplayColor::new(1, 2, 3);
    assert_eq!(render_color("bl\u{e5}", c), "\x1b[48;2;1;2;3mbl\u{e5}       #010203\x1b[0m");
    assert_eq!(render_color("bl\u{e5}", c), cell(48, "bl\u{e5}", c));
}

#[test]
fn render_color_pair_shows_two_lines() {
    assert_eq!(
        render_color_pair("red", DisplayColor::new(183, 0, 40), DisplayColor::new(255, 0, 99)),
        "\x1b[48;2;183;0;40mred       #B70028\x1b[0m \x1b[48;2;255;0;99mredb      #FF0063\x1b[0m\n\
         \x1b[38;2;183;0;40mred       #B70028\x1b[0m \x1b[38;2;255;0;99mredb      #FF0063\x1b[0m\n"
    );
}

#[test]
fn render_color_pair_adds_b_to_the_bright_name() {
    let normal = DisplayColor::new(1, 2, 3);
    let bright = DisplayColor::new(4, 5, 6);
    assert_eq!(render_color_pair("magenta", normal, bright), pair("magenta", normal, bright));
    assert_eq!(render_color_pair("ninechars", normal, bright), pair("ninechars", normal, bright));
    assert_eq!(render_color_pair("tencharsxx", normal, bright), pair("tencharsxx", normal, bright));
    assert!(render_color_pair("ninechars", normal, bright).contains("mninecharsb#040506"));
    assert!(render_color_pair("tencharsxx", normal, bright).contains("mtencharsxxb#040506"));
}

#[test]
fn render_preview_of_a_sample() {
    let colors = sample();
    let mut expected = String::new();
    expected.push_str(&pair("deft_fg", colors.foreground, colors.foreground));
    expected.push_str(&pair("deft_bg", colors.background, colors.background));
    let rows = [("bg_vvdark", 0, "bg_vvlight", 5), ("bg_vdark", 1, "bg_vlight", 4), ("bg_dark", 2, "bg_light", 3)];
    for (dark, i, light, j) in rows {
        expected.push_str(&cell(48, dark, colors.tints[i]));
        expected.push(' ');
        expected.push_str(&cell(48, light, colors.tints[j]));
        expected.push('\n');
    }
    let names = ["black", "red", "green", "yellow", "blue", "magenta", "cyan", "white"];
    for (i, name) in names.into_iter().enumerate() {
        expected.push_str(&pair(name, colors.ansi[i], colors.brights[i]));
    }
    expected.push('\n');
    assert_eq!(render_preview(&colors), expected);
}

#[test]
fn render_preview_begins_with_foreground_and_background() {
    let text = render_preview(&sample());
    assert!(text.starts_with(
        "\x1b[48;2;254;220;186mdeft_fg   #FEDCBA\x1b[0m \x1b[48;2;254;220;186mdeft_fgb  #FEDCBA\x1b[0m\n\
         \x1b[38;2;254;220;186mdeft_fg   #FEDCBA\x1b[0m \x1b[38;2;254;220;186mdeft_fgb  #FEDCBA\x1b[0m\n\
         \x1b[48;2;1;2;3mdeft_bg   #010203\x1b[0m \x1b[48;2;1;2;3mdeft_bgb  #010203\x1b[0m\n\
         \x1b[38;2;1;2;3mdeft_bg   #010203\x1b[0m \x1b[38;2;1;2;3mdeft_bgb  #010203\x1b[0m\n\
         \x1b[48;2;0;112;224mbg_vvdark #0070E0\x1b[0m \x1b[48;2;5;117;229mbg_vvlight#0575E5\x1b[0m\n"
    ));
}

#[test]
fn render_preview_ends_with_white_and_an_empty_line() {
    let text = render_preview(&sample());
    assert!(text.ends_with(
        "\x1b[48;2;167;7;15mwhite     #A7070F\x1b[0m \x1b[48;2;183;23;255mwhiteb    #B717FF\x1b[0m\n\
         \x1b[38;2;167;7;15mwhite     #A7070F\x1b[0m \x1b[38;2;183;23;255mwhiteb    #B717FF\x1b[0m\n\n"
    ));
    assert_eq!(text.lines().count(), 4 + 3 + 16 + 1);
}
