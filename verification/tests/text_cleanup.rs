use lazyjj::ui::utils::{
    centered_rect_fixed, scroll_index, strip_osc8_hyperlinks, tabs_to_spaces, Rect,
};

#[test]
fn test_strip_osc8_hyperlinks_with_st_terminator() {
    // OSC 8 with ST (ESC \) terminator
    let input = "\x1b]8;;https://example.com\x1b\\Click here\x1b]8;;\x1b\\";
    let result = strip_osc8_hyperlinks(input);
    assert_eq!(result, "Click here");
}

#[test]
fn test_strip_osc8_hyperlinks_with_bel_terminator() {
    // OSC 8 with BEL (\x07) terminator
    let input = "\x1b]8;;https://example.com\x07Click here\x1b]8;;\x07";
    let result = strip_osc8_hyperlinks(input);
    assert_eq!(result, "Click here");
}

#[test]
fn test_strip_osc8_hyperlinks_preserves_other_ansi() {
    // Should preserve CSI color codes while stripping OSC 8
    let input = "\x1b[32m\x1b]8;;url\x1b\\green link\x1b]8;;\x1b\\\x1b[0m";
    let result = strip_osc8_hyperlinks(input);
    assert_eq!(result, "\x1b[32mgreen link\x1b[0m");
}

#[test]
fn test_strip_osc8_hyperlinks_no_links() {
    let input = "plain text with \x1b[31mcolors\x1b[0m";
    let result = strip_osc8_hyperlinks(input);
    assert_eq!(result, input);
}

#[test]
fn test_strip_osc8_hyperlinks_delta_style() {
    // Real delta output style: ESC ] 8 ; ; URL ESC \ text ESC ] 8 ; ; ESC \
    let input = "\x1b]8;;vscode-insiders://file/path.rs\x1b\\file.rs\x1b]8;;\x1b\\";
    let result = strip_osc8_hyperlinks(input);
    // Should strip the OSC 8 sequences, keeping just the text
    assert_eq!(result, "file.rs");
}

#[test]
fn test_strip_osc8_hyperlinks_multiline() {
    // Multiple hyperlinks across lines
    let input = "\x1b]8;;url1\x1b\\line1\x1b]8;;\x1b\\\n\x1b]8;;url2\x1b\\line2\x1b]8;;\x1b\\";
    let result = strip_osc8_hyperlinks(input);
    assert_eq!(result, "line1\nline2");
}

#[test]
fn test_strip_osc8_real_delta_output() {
    // Real delta output with OSC 8 and ANSI colors mixed
    let input = "\x1b[34mΔ \x1b]8;;vscode://file/path.rs:\x1b\\left/path.rs\x1b]8;;\x1b\\ ⟶ right\x1b[0m";
    let result = strip_osc8_hyperlinks(input);
    // Should keep ANSI colors but strip OSC 8 hyperlinks
    assert_eq!(result, "\x1b[34mΔ left/path.rs ⟶ right\x1b[0m");
    assert!(!result.contains("]8;;"));
}

#[test]
fn strip_osc8_keeps_text_without_escape() {
    let input = "no escape at all ]8;; here";
    assert_eq!(strip_osc8_hyperlinks(input), input);
}

#[test]
fn strip_osc8_keeps_unterminated_sequence() {
    let input = "\x1b]8;;https://example.com without end";
    assert_eq!(strip_osc8_hyperlinks(input), input);
}

#[test]
fn tabs_expand_to_next_stop() {
    assert_eq!(tabs_to_spaces("a\tb"), "a   b");
    assert_eq!(tabs_to_spaces("ab\tc"), "ab  c");
    assert_eq!(tabs_to_spaces("abcd\te"), "abcd    e");
    assert_eq!(tabs_to_spaces("\tx"), "    x");
}

#[test]
fn tabs_ignore_escape_sequences_width() {
    assert_eq!(tabs_to_spaces("\x1b[31ma\tb"), "\x1b[31ma   b");
}

#[test]
fn tabs_restart_after_newline() {
    assert_eq!(tabs_to_spaces("abc\n\tx"), "abc\n    x");
    assert_eq!(tabs_to_spaces("ab\r\tx"), "ab\r    x");
}

#[test]
fn tabs_leave_text_without_tabs() {
    assert_eq!(tabs_to_spaces("plain line"), "plain line");
}

#[test]
fn centered_rect_fixed_centers_and_clips() {
    let area = Rect { x: 10, y: 5, width: 40, height: 20 };
    let r = centered_rect_fixed(area, 20, 10);
    assert_eq!(r, Rect { x: 20, y: 10, width: 20, height: 10 });
    let big = centered_rect_fixed(area, 100, 30);
    assert_eq!(big, Rect { x: 10, y: 5, width: 40, height: 20 });
}

#[test]
fn rect_contains_cells_inside_only() {
    let r = Rect { x: 2, y: 3, width: 4, height: 2 };
    assert!(r.contains(2, 3));
    assert!(r.contains(5, 4));
    assert!(!r.contains(6, 4));
    assert!(!r.contains(2, 5));
    assert!(!r.contains(1, 3));
    assert_eq!(r.right(), 6);
    assert_eq!(r.bottom(), 5);
}

#[test]
fn scroll_index_stays_in_list() {
    assert_eq!(scroll_index(Some(2), 1, 5), Some(3));
    assert_eq!(scroll_index(Some(2), 10, 5), Some(4));
    assert_eq!(scroll_index(Some(2), -10, 5), Some(0));
    assert_eq!(scroll_index(Some(2), isize::MIN, 5), Some(0));
    assert_eq!(scroll_index(Some(2), isize::MAX, 5), Some(4));
    assert_eq!(scroll_index(None, 3, 5), Some(0));
    assert_eq!(scroll_index(None, 3, 0), None);
}

#[test]
fn scroll_index_by_zero_keeps_selection() {
    for c in 0..4usize {
        assert_eq!(scroll_index(Some(c), 0, 4), Some(c));
    }
}

#[test]
fn tabs_after_escape_are_expanded_too() {
    // ESC followed by a tab is no escape sequence: the tab still becomes spaces
    assert_eq!(tabs_to_spaces("\x1b\tx"), "\x1b    x");
    assert_eq!(tabs_to_spaces("\x1b[3\tm"), "\x1b[3    m");
    assert!(!tabs_to_spaces("a\x1b\t\x1b[\tb\t").contains('\t'));
}

#[test]
fn tabs_expanding_twice_changes_nothing() {
    for line in ["a\tb\tc", "\x1b[1m\tx\ty", "ab\r\tz", "\x1b\t\t"] {
        let once = tabs_to_spaces(line);
        assert_eq!(tabs_to_spaces(&once), once);
    }
}

#[test]
fn tab_stops_restart_on_each_line() {
    let a = "abc\tdef";
    let b = "x\ty";
    assert_eq!(
        tabs_to_spaces(&format!("{a}\n{b}")),
        format!("{}\n{}", tabs_to_spaces(a), tabs_to_spaces(b))
    );
    assert_eq!(tabs_to_spaces("abc\tdef\nx\ty"), "abc def\nx   y");
}

#[test]
fn text_search_finds_infixes() {
    assert!(lazyjj::strings::contains_text("abcabd", "abd"));
    assert!(lazyjj::strings::contains_text("abc", ""));
    assert!(!lazyjj::strings::contains_text("ab", "abc"));
    assert!(!lazyjj::strings::contains_text("abcabc", "acb"));
}
