use expect_test_bytes::render::{panel_char_exec, push_byte_window, push_hex_number, push_spacer};

#[test]
fn hex_number_renders_lowercase_without_leading_zeros() {
    let cases: [(usize, &str); 6] =
        [(0, "0"), (3, "3"), (15, "f"), (16, "10"), (255, "ff"), (0x1234, "1234")];
    for (n, expected) in cases {
        let mut out = String::new();
        push_hex_number(&mut out, n);
        assert_eq!(out, expected);
    }
}

#[test]
fn panel_characters_follow_the_fixed_table() {
    assert_eq!(panel_char_exec(0), '\u{22c4}');
    assert_eq!(panel_char_exec(b'A'), 'A');
    assert_eq!(panel_char_exec(b'~'), '~');
    assert_eq!(panel_char_exec(b'!'), '!');
    assert_eq!(panel_char_exec(b' '), ' ');
    assert_eq!(panel_char_exec(b'\t'), '_');
    assert_eq!(panel_char_exec(b'\n'), '_');
    assert_eq!(panel_char_exec(b'\r'), '_');
    assert_eq!(panel_char_exec(0x0c), '_');
    assert_eq!(panel_char_exec(0x07), '\u{2022}');
    assert_eq!(panel_char_exec(0x7f), '\u{2022}');
    assert_eq!(panel_char_exec(0x80), '\u{d7}');
    assert_eq!(panel_char_exec(0xff), '\u{d7}');
}

#[test]
fn window_of_short_sequence_includes_every_byte() {
    let mut out = String::new();
    push_byte_window(&mut out, b"example\n", 3, true);
    assert_eq!(out, "65 78 61 \x1b[32m6d\x1b[0m 70 6c 65 0a example_");
}

#[test]
fn window_of_long_sequence_is_clipped_to_nine_bytes() {
    let data: Vec<u8> = (0u8..20).collect();
    let mut out = String::new();
    push_byte_window(&mut out, &data, 10, true);
    assert_eq!(
        out,
        "06 07 08 09 \x1b[32m0a\x1b[0m 0b 0c 0d 0e \u{2022}\u{2022}\u{2022}__\u{2022}__\u{2022}"
    );
}

#[test]
fn window_near_the_start_is_shorter() {
    let data: Vec<u8> = (0u8..20).collect();
    let mut out = String::new();
    push_byte_window(&mut out, &data, 0, false);
    assert_eq!(out, "\x1b[31m00\x1b[0m 01 02 03 04 \u{22c4}\u{2022}\u{2022}\u{2022}\u{2022}");
}

#[test]
fn window_at_sequence_end_has_no_highlight() {
    let mut out = String::new();
    push_byte_window(&mut out, b"ab", 2, true);
    assert_eq!(out, "61 62 ab");
}

#[test]
fn actual_side_is_highlighted_in_red() {
    let mut out = String::new();
    push_byte_window(&mut out, b"exa- not this\n", 3, false);
    assert_eq!(out, "65 78 61 \x1b[31m2d\x1b[0m 20 6e 6f 74 exa- not");
}

#[test]
fn spacer_repeats_three_space_groups() {
    for (n, expected) in [(0usize, ""), (1, "   "), (3, "         ")] {
        let mut out = String::new();
        push_spacer(&mut out, n);
        assert_eq!(out, expected);
    }
}
