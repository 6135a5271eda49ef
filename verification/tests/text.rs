use voicebox_launcher::text::chars_of;
use voicebox_launcher::text::has_prefix_within;
use voicebox_launcher::text::join_lines;
use voicebox_launcher::text::lines;
use voicebox_launcher::text::same_text;
use voicebox_launcher::text::trim;
use voicebox_launcher::text::trim_bounds;
use voicebox_launcher::text::white_space;

fn owned(items: &[&str]) -> Vec<String> {
    items.iter().map(|s| s.to_string()).collect()
}

#[test]
fn white_space_covers_ascii_blank_and_tab() {
    assert!(white_space(' '));
    assert!(white_space('\t'));
    assert!(white_space('\n'));
    assert!(white_space('\r'));
    assert!(white_space('\u{a0}'));
    assert!(white_space('\u{3000}'));
    assert!(!white_space('t'));
    assert!(!white_space('\u{200b}'));
}

#[test]
fn white_space_agrees_with_std_on_every_char() {
    let mut code: u32 = 0;
    while code <= 0x10FFFF {
        if let Some(c) = char::from_u32(code) {
            assert_eq!(white_space(c), c.is_whitespace(), "U+{:04X}", code);
        }
        code += 1;
    }
}

#[test]
fn chars_of_keeps_every_character() {
    assert_eq!(chars_of("a b"), vec!['a', ' ', 'b']);
    assert_eq!(chars_of(""), Vec::<char>::new());
    assert_eq!(chars_of("é\u{3000}x"), vec!['é', '\u{3000}', 'x']);
}

#[test]
fn trim_removes_white_space_at_both_ends_only() {
    assert_eq!(trim("  Yes \r\n"), "Yes");
    assert_eq!(trim("a b"), "a b");
    assert_eq!(trim("\t a  b \u{a0}"), "a  b");
    assert_eq!(trim(""), "");
    assert_eq!(trim(" \n\t "), "");
    assert_eq!(trim("é "), "é");
}

#[test]
fn trim_agrees_with_std() {
    for s in ["", " ", "x", " x", "x ", "  x y  ", "\r\nYes\r\n", "\u{2003}é\u{2003}", "\u{feff}a"] {
        assert_eq!(trim(s), s.trim(), "{:?}", s);
    }
}

#[test]
fn trim_bounds_are_counted_in_characters() {
    assert_eq!(trim_bounds(&chars_of(" é x ")), (1, 4));
    assert_eq!(trim_bounds(&chars_of("   ")), (3, 3));
    assert_eq!(trim_bounds(&chars_of("")), (0, 0));
}

#[test]
fn has_prefix_within_looks_only_at_the_range() {
    let chars = chars_of("  torch ");
    let marker = chars_of("torch");
    assert!(has_prefix_within(&chars, 2, 7, &marker));
    assert!(!has_prefix_within(&chars, 2, 6, &marker));
    assert!(!has_prefix_within(&chars, 1, 7, &marker));
    assert!(has_prefix_within(&chars, 3, 3, &chars_of("")));
}

#[test]
fn same_text_compares_whole_texts() {
    assert!(same_text("Yes", "Yes"));
    assert!(!same_text("Yes", "yes"));
    assert!(!same_text("Yes", "Yes "));
    assert!(!same_text("Ye", "Yes"));
    assert!(same_text("", ""));
}

#[test]
fn lines_end_at_line_feeds() {
    assert_eq!(lines("a\nb\nc"), owned(&["a", "b", "c"]));
    assert_eq!(lines("a\nb\n"), owned(&["a", "b"]));
    assert_eq!(lines(""), Vec::<String>::new());
    assert_eq!(lines("\n"), owned(&[""]));
    assert_eq!(lines("\n\n"), owned(&["", ""]));
    assert_eq!(lines("a\n\nb"), owned(&["a", "", "b"]));
}

#[test]
fn lines_drop_the_carriage_return_of_a_line_ending_only() {
    assert_eq!(lines("a\r\nb\r\n"), owned(&["a", "b"]));
    assert_eq!(lines("a\r\nb\r"), owned(&["a", "b\r"]));
    assert_eq!(lines("a\rb\n"), owned(&["a\rb"]));
    assert_eq!(lines("a\r\r\n"), owned(&["a\r"]));
    assert_eq!(lines("\r\n"), owned(&[""]));
}

#[test]
fn lines_agree_with_std() {
    for s in ["", "a", "a\n", "a\r\n", "a\r", "\n", "\r\n\r\n", "x\n\ny\r\n\r\nz", "é\n\u{3000}\r\n", "a\r\r\nb"] {
        let expected: Vec<String> = s.lines().map(|l| l.to_string()).collect();
        assert_eq!(lines(s), expected, "{:?}", s);
    }
}

#[test]
fn join_lines_puts_a_line_feed_between_neighbours() {
    assert_eq!(join_lines(&owned(&["a", "b", "c"])), "a\nb\nc");
    assert_eq!(join_lines(&owned(&["a"])), "a");
    assert_eq!(join_lines(&owned(&[])), "");
    assert_eq!(join_lines(&owned(&["", ""])), "\n");
    assert_eq!(join_lines(&owned(&["a", ""])), "a\n");
}
