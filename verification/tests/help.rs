use ario::help_layout::{fit_tail, help_lines, help_position, search_line, split_words, wrap_text, HelpLine};
use unicode_width::UnicodeWidthStr;

#[test]
fn catalog_wraps_without_losing_descriptions() {
    for width in [12, 30, 32, 60, 96] {
        let lines = help_lines("", width);
        assert!(lines.iter().all(|line| line.text().width() <= width));
        let text = lines.iter().map(|line| line.text()).collect::<Vec<_>>().join("\n");
        assert!(text.contains("─"));
        assert!(text.contains("Confirmations") || width < 13);
    }
    assert_eq!(wrap_text("keep downloaded files", 10), ["keep", "downloaded", "files"]);
}

#[test]
fn words_are_split_on_any_whitespace() {
    assert_eq!(split_words("  a\tbc \u{3000}d  "), ["a", "bc", "d"]);
    assert!(split_words(" \n ").is_empty());
}

#[test]
fn long_words_break_between_clusters() {
    assert_eq!(wrap_text("abcdefgh ij", 3), ["abc", "def", "gh", "ij"]);
    assert_eq!(wrap_text("a b c", 3), ["a b", "c"]);
    assert_eq!(wrap_text("界界界", 4), ["界界", "界"]);
    assert!(wrap_text("anything", 0).is_empty());
    assert!(wrap_text("   ", 5).is_empty());
}

#[test]
fn wide_help_puts_keys_beside_descriptions() {
    let lines = help_lines("quit from", 60);
    assert_eq!(lines[0], HelpLine::Title("Main Navigation".into()));
    assert_eq!(lines[1], HelpLine::Rule("─".repeat(60)));
    assert_eq!(
        lines[2],
        HelpLine::Row {
            keys: "q / Esc".into(),
            padding: " ".repeat(22 - 7 + 2),
            description: "Quit from the main screen".into(),
        }
    );
    assert_eq!(lines.len(), 3);
}

#[test]
fn narrow_help_stacks_keys_over_descriptions() {
    let lines = help_lines("quit from", 20);
    assert_eq!(
        lines,
        vec![
            HelpLine::Title("Main Navigation".into()),
            HelpLine::Rule("─".repeat(20)),
            HelpLine::Keys("q / Esc".into()),
            HelpLine::Description("Quit from the main".into()),
            HelpLine::Description("screen".into()),
            HelpLine::Blank,
        ]
    );
}

#[test]
fn unmatched_searches_say_so() {
    assert_eq!(help_lines("nonexistent shortcut", 60), vec![HelpLine::Message("No matching keybindings".into())]);
    assert_eq!(
        help_lines("nonexistent shortcut", 10),
        vec![
            HelpLine::Message("No".into()),
            HelpLine::Message("matching".into()),
            HelpLine::Message("keybinding".into()),
            HelpLine::Message("s".into()),
        ]
    );
    assert_eq!(
        help_lines("nonexistent shortcut", 11),
        vec![HelpLine::Message("No matching".into()), HelpLine::Message("keybindings".into())]
    );
}

#[test]
fn search_line_keeps_the_end_of_long_queries() {
    assert_eq!(search_line("", false, 30), "/: search keybindings");
    assert_eq!(search_line("", true, 30), "/ ");
    assert_eq!(search_line("abc", false, 30), "/ abc");
    assert_eq!(search_line("abcdef", false, 4), "cdef");
    assert_eq!(search_line("abcdef", true, 4), "def");
    assert_eq!(fit_tail("é界ab", 2), "ab");
    assert_eq!(fit_tail("é界ab", 3), "ab");
    assert_eq!(fit_tail("é界ab", 4), "界ab");
    assert_eq!(fit_tail("abc", 0), "");
}

#[test]
fn footer_position_counts_from_one() {
    assert_eq!(help_position(0, 10, 25), (1, 10));
    assert_eq!(help_position(20, 10, 25), (21, 25));
    assert_eq!(help_position(0, 10, 0), (0, 0));
}
