use weather_dashboard::input::{city_from_line, white_space};

#[test]
fn line_is_trimmed_of_surrounding_white_space() {
    assert_eq!(city_from_line("Paris\n"), "Paris");
    assert_eq!(city_from_line("  Paris  \r\n"), "Paris");
    assert_eq!(city_from_line("\tParis"), "Paris");
    assert_eq!(city_from_line("Paris"), "Paris");
}

#[test]
fn inner_white_space_is_kept() {
    assert_eq!(city_from_line("  New  York \n"), "New  York");
    assert_eq!(city_from_line("Le\tMans\n"), "Le\tMans");
}

#[test]
fn empty_and_blank_lines_give_the_empty_name() {
    assert_eq!(city_from_line(""), "");
    assert_eq!(city_from_line("\n"), "");
    assert_eq!(city_from_line("   \t \r\n"), "");
    assert_eq!(city_from_line("\u{a0}\u{3000}\u{2028}"), "");
}

#[test]
fn names_beyond_ascii_are_kept() {
    assert_eq!(city_from_line(" Saint-Étienne\n"), "Saint-Étienne");
    assert_eq!(city_from_line("\u{2003}東京\u{2003}\n"), "東京");
    assert_eq!(city_from_line("Ålesund"), "Ålesund");
}

#[test]
fn single_character_lines() {
    assert_eq!(city_from_line("x"), "x");
    assert_eq!(city_from_line(" "), "");
    assert_eq!(city_from_line(" x"), "x");
    assert_eq!(city_from_line("x "), "x");
}

#[test]
fn white_space_is_what_the_standard_library_calls_so() {
    let mut count = 0;
    for code in 0..=0x10ffffu32 {
        if let Some(c) = char::from_u32(code) {
            assert_eq!(white_space(c), c.is_whitespace(), "code {:#x}", code);
            if white_space(c) {
                count += 1;
            }
        }
    }
    assert_eq!(count, 25);
}

#[test]
fn trimming_agrees_with_the_standard_library() {
    let samples = [
        "", " ", "a", " a", "a ", " a ", "\n\na b\n\n", "\u{85}x\u{85}", "\u{1680}x y\u{205f}",
        "\u{200b}x\u{200b}", "\u{feff}Paris\n", "  \u{202f}é \u{2029}", "\u{180e} z \u{180e}",
        "q", "\r", "\u{b}\u{c}mid\u{b}\u{c}",
    ];
    for line in samples {
        assert_eq!(city_from_line(line), line.trim(), "line {:?}", line);
    }
}

#[test]
fn trimming_is_idempotent() {
    for line in ["  Paris \n", "", " a  b ", "\u{3000}x\u{3000}"] {
        let once = city_from_line(line);
        assert_eq!(city_from_line(&once), once);
    }
}
