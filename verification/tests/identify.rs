use switcheroo::identify::{
    chars_of, count_frames, count_lines, leading_line, parse_dimensions, summarize_report,
};

#[test]
fn a_size_is_two_numbers_around_an_x() {
    assert_eq!(parse_dimensions(" 640x480 "), Some((640, 480)));
    assert_eq!(parse_dimensions("1x1"), Some((1, 1)));
    assert_eq!(parse_dimensions("\t 12x0034 \n"), Some((12, 34)));
    assert_eq!(parse_dimensions("+5x+7"), Some((5, 7)));
    assert_eq!(parse_dimensions("0x0"), Some((0, 0)));
}

#[test]
fn what_is_no_size() {
    for token in [
        "", " ", "x", "12x", "x12", "12", "1x2x3", "12 x34", "12x 34", "-1x2", "1.5x2", "axb",
        "٣x٣", "+x1", "1x+",
    ] {
        assert_eq!(parse_dimensions(token), None, "{token:?}");
    }
}

#[test]
fn sizes_agree_with_the_standard_parser() {
    for token in [" 640x480 ", "+5x+7", "12x", "٣x٣", "1x2x3", " 007x8 ", "\u{a0}3x4\u{3000}"] {
        let parts: Vec<Result<usize, _>> =
            token.trim().split('x').map(|n| n.parse::<usize>()).collect();
        let expected = match parts[..] {
            [Ok(w), Ok(h)] => Some((w, h)),
            _ => None,
        };
        assert_eq!(parse_dimensions(token), expected, "{token:?}");
    }
}

#[test]
fn a_side_that_the_machine_cannot_hold_is_no_number() {
    let max = usize::MAX.to_string();
    assert_eq!(parse_dimensions(&format!("{max}x1")), Some((usize::MAX, 1)));
    let over = (usize::MAX as u128 + 1).to_string();
    assert_eq!(parse_dimensions(&format!("{over}x1")), None);
    assert_eq!(parse_dimensions(&format!("1x{max}0")), None);
    assert_eq!(parse_dimensions("1x99999999999999999999999999999999999999"), None);
}

#[test]
fn lines_are_counted_like_the_standard_library_does() {
    for text in ["", "a", "a\n", "a\nb", "a\nb\n", "\n", "\n\n", "a\r\nb\r\n", "a\n\nb", "\r"] {
        assert_eq!(count_lines(&chars_of(text)), text.lines().count(), "{text:?}");
    }
}

#[test]
fn the_first_line_ends_before_the_line_feed() {
    for text in ["", "a", "a\n", "a\nb", "\n", "a\r\nb", "a\r", "\r\n", "ab\rc\nd", "é\n"] {
        assert_eq!(
            leading_line(text),
            text.lines().next().map(|l| l.to_string()),
            "{text:?}"
        );
    }
}

#[test]
fn a_report_of_one_frame() {
    let report = "photo.png PNG 640x480 640x480+0+0 8-bit sRGB 1.2MB 0.000u 0:00.000\n";
    assert_eq!(count_frames(report), (1, Some((640, 480))));
}

#[test]
fn a_report_of_three_frames_gives_the_size_of_the_first() {
    let report = "a.gif[0] GIF 10x20 10x20+0+0 8-bit\na.gif[1] GIF 30x40 30x40+0+0\na.gif[2] GIF 5x6 5x6+0+0\n";
    assert_eq!(count_frames(report), (3, Some((10, 20))));
}

#[test]
fn a_report_without_a_size() {
    assert_eq!(count_frames("nothing to see\nhere\n"), (2, None));
    assert_eq!(count_frames(""), (0, None));
    assert_eq!(count_frames("\n a.png 4x4 \n"), (2, None));
}

#[test]
fn the_size_has_to_stand_between_blanks() {
    assert_eq!(count_frames("a.png 640x480"), (1, None));
    assert_eq!(count_frames("640x480 a.png"), (1, None));
    assert_eq!(count_frames("a 1x2 b 3x4 c"), (1, Some((1, 2))));
}

#[test]
fn a_size_too_large_for_the_machine_is_none() {
    let report = "a.png PNG 99999999999999999999999x1 rest\n";
    assert_eq!(count_frames(report), (1, None));
}

#[test]
fn a_summary_takes_the_size_from_what_was_found() {
    assert_eq!(
        summarize_report("one\ntwo", Some(" 3x4 ".to_string())),
        (2, Some((3, 4)))
    );
    assert_eq!(summarize_report("one\ntwo", None), (2, None));
    assert_eq!(summarize_report("", Some(" 3x4 ".to_string())), (0, None));
    assert_eq!(summarize_report("one", Some("3x".to_string())), (1, None));
}
