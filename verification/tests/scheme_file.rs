use dpc_theme::color::DisplayColor;
use dpc_theme::scheme::ColorSet;
use dpc_theme::wezterm::{generate_wezterm_config, METADATA};

fn sample() -> ColorSet {
    let mut ansi = [DisplayColor::new(0, 0, 0); 8];
    let mut brights = [DisplayColor::new(0, 0, 0); 8];
    for i in 0..8u8 {
        ansi[i as usize] = DisplayColor::new(0xA0 + i, i, 0x0F);
        brights[i as usize] = DisplayColor::new(0xB0 + i, 0x10 + i, 0xFF);
    }
    let mut tints = [DisplayColor::new(0, 0, 0); 6];
    for i in 0..6u8 {
        tints[i as usize] = DisplayColor::new(i, 0x70 + i, 0xE0 + i);
    }
    ColorSet {
        ansi,
        brights,
        background: DisplayColor::new(1, 2, 3),
        foreground: DisplayColor::new(0xFE, 0xDC, 0xBA),
        tints,
    }
}

const EXPECTED: &str = r###"[colors]
ansi = [
    "#A0000F",
    "#A1010F",
    "#A2020F",
    "#A3030F",
    "#A4040F",
    "#A5050F",
    "#A6060F",
    "#A7070F",
]
background = "#010203"
brights = [
    "#B010FF",
    "#B111FF",
    "#B212FF",
    "#B313FF",
    "#B414FF",
    "#B515FF",
    "#B616FF",
    "#B717FF",
]
cursor_bg = "#A7070F"
cursor_border = "#A7070F"
cursor_fg = "#A0000F"
foreground = "#FEDCBA"
selection_bg = "#A7070F"
selection_fg = "#A0000F"

[metadata]
aliases = ["dpc"]
author = "dpc (http://github.com/dpc)"
name = "dpc"
origin_url = "https://github.com/dpc/dpc-theme"
wezterm_version = "wezterm 0-unstable-2025-01-24"

"###;

#[test]
fn scheme_file_of_a_sample() {
    assert_eq!(generate_wezterm_config(&sample()), EXPECTED);
}

#[test]
fn scheme_file_ends_with_the_metadata_and_an_empty_line() {
    let text = generate_wezterm_config(&sample());
    assert!(text.ends_with(METADATA));
    assert!(text.ends_with("wezterm_version = \"wezterm 0-unstable-2025-01-24\"\n\n"));
    assert!(METADATA.starts_with("\n[metadata]\naliases = [\"dpc\"]\n"));
}

#[test]
fn scheme_file_lists_eight_colors_twice() {
    let text = generate_wezterm_config(&sample());
    let items = text.lines().filter(|line| line.starts_with("    \"#") && line.ends_with("\",")).count();
    assert_eq!(items, 16);
    let ansi = text.find("ansi = [\n").unwrap();
    let background = text.find("background = ").unwrap();
    let brights = text.find("brights = [\n").unwrap();
    assert!(ansi < background && background < brights);
}

#[test]
fn scheme_file_does_not_depend_on_the_tints() {
    let mut other = sample();
    other.tints = [DisplayColor::new(9, 9, 9); 6];
    assert_eq!(generate_wezterm_config(&other), generate_wezterm_config(&sample()));
}

#[test]
fn cursor_and_selection_follow_white_and_black() {
    let mut colors = sample();
    colors.ansi[7] = DisplayColor::new(0xEE, 0xEE, 0xEE);
    colors.ansi[0] = DisplayColor::new(0x11, 0x11, 0x11);
    let text = generate_wezterm_config(&colors);
    assert!(text.contains("cursor_bg = \"#EEEEEE\"\n"));
    assert!(text.contains("cursor_border = \"#EEEEEE\"\n"));
    assert!(text.contains("cursor_fg = \"#111111\"\n"));
    assert!(text.contains("selection_bg = \"#EEEEEE\"\n"));
    assert!(text.contains("selection_fg = \"#111111\"\n"));
    assert!(text.contains("foreground = \"#FEDCBA\"\n"));
}

#[test]
fn every_color_of_the_file_is_a_hash_and_six_upper_case_digits() {
    let text = generate_wezterm_config(&sample());
    let colors_part = &text[..text.find("[metadata]").unwrap()];
    let mut found = 0;
    for (at, _) in colors_part.match_indices('#') {
        let digits = &colors_part[at + 1..at + 7];
        assert!(digits.chars().all(|c| c.is_ascii_digit() || ('A'..='F').contains(&c)));
        assert_eq!(&colors_part[at + 7..at + 8], "\"");
        assert_eq!(DisplayColor::parse_hex(digits).map(|c| c.to_hex()), Some(digits.to_string()));
        found += 1;
    }
    assert_eq!(found, 23);
}
