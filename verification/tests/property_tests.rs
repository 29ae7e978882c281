use minigrep::search_regex;
use minigrep::split_lines;
use minigrep::Config;

#[test]
fn literal_search_is_exact_containment() {
    // An invalid pattern falls back to literal containment: exactly the lines
    // holding the pattern as a substring come back, in order, unmodified.
    let pattern = "a(b";
    let text = "a(b starts\nnothing here\nends with a(b\nmiddle a(b middle\nno";
    assert_eq!(
        search_regex(pattern, text, true, false),
        vec!["a(b starts", "ends with a(b", "middle a(b middle"]
    );
}

#[test]
fn insensitive_never_returns_fewer_lines() {
    let pattern = "a(B";
    let text = "has a(b once\nhas a(B once\nneither\nA(b mixed";
    let sensitive = search_regex(pattern, text, true, false);
    let insensitive = search_regex(pattern, text, false, false);
    assert_eq!(sensitive, vec!["has a(B once"]);
    assert_eq!(insensitive, vec!["has a(b once", "has a(B once", "A(b mixed"]);
    assert!(sensitive.len() <= insensitive.len());
}

#[test]
fn highlight_keeps_the_selection() {
    // Highlighting changes the rendering of the selected lines, never which
    // lines are selected.
    let pattern = "duct";
    let text = "Rust:\nSafe, fast, productive.\nPick three.";
    let plain = search_regex(pattern, text, true, false);
    let highlighted = search_regex(pattern, text, true, true);
    assert_eq!(plain.len(), highlighted.len());
    assert_eq!(plain, vec!["Safe, fast, productive."]);
    assert_eq!(highlighted, vec!["Safe, fast, pro\x1b[7mduct\x1b[0mive."]);
}

#[test]
fn regex_highlight_wraps_every_occurrence() {
    let pattern = "an";
    let text = "banana band";
    assert_eq!(
        search_regex(pattern, text, true, true),
        vec!["b\x1b[7man\x1b[0m\x1b[7man\x1b[0ma b\x1b[7man\x1b[0md"]
    );
}

#[test]
fn literal_highlight_wraps_only_the_first_occurrence() {
    let pattern = "b|(";
    let text = "one b|( two b|( three";
    assert_eq!(
        search_regex(pattern, text, true, true),
        vec!["one \x1b[7mb|(\x1b[0m two b|( three"]
    );
}

#[test]
fn empty_pattern_returns_every_line() {
    let text = "Rust:\nSafe, fast, productive.\nPick three.";
    assert_eq!(
        search_regex("", text, true, false),
        vec!["Rust:", "Safe, fast, productive.", "Pick three."]
    );
}

#[test]
fn empty_text_returns_nothing() {
    assert_eq!(search_regex("anything", "", true, false).len(), 0);
    assert_eq!(search_regex("", "", true, false).len(), 0);
}

#[test]
fn split_lines_universal_newlines() {
    assert_eq!(split_lines(""), Vec::<String>::new());
    assert_eq!(split_lines("one"), vec!["one"]);
    assert_eq!(split_lines("one\ntwo"), vec!["one", "two"]);
    assert_eq!(split_lines("one\r\ntwo"), vec!["one", "two"]);
    assert_eq!(split_lines("a\n\nb"), vec!["a", "", "b"]);
    // A lone carriage return is not a line break.
    assert_eq!(split_lines("one\rtwo"), vec!["one\rtwo"]);
}

#[test]
fn split_lines_trailing_newline_adds_no_line() {
    assert_eq!(split_lines("one\ntwo\n"), split_lines("one\ntwo"));
    assert_eq!(split_lines("x\n"), vec!["x"]);
}

#[test]
fn insensitive_literal_fallback_folds_both_sides() {
    // Invalid as a regex, so the literal fallback decides; folding must be
    // applied to the line and to the pattern alike.
    let pattern = "A(B";
    let text = "xx a(b yy\nzz";
    assert_eq!(search_regex(pattern, text, false, false), vec!["xx a(b yy"]);
    assert_eq!(
        search_regex(pattern, text, false, true),
        vec!["xx \x1b[7ma(b\x1b[0m yy"]
    );
}

#[test]
fn regex_case_insensitive_flag_reaches_the_engine() {
    let pattern = "FAST.*TIVE";
    let text = "Safe, fast, productive.\nPick three.";
    assert_eq!(search_regex(pattern, text, true, false).len(), 0);
    assert_eq!(
        search_regex(pattern, text, false, false),
        vec!["Safe, fast, productive."]
    );
}

#[test]
fn zero_length_regex_spans_highlight() {
    // "x*" matches the empty string at every position of a line without an
    // "x": every line is selected, and each position gets an empty wrapped
    // span.
    let out = search_regex("x*", "ab", true, true);
    assert_eq!(out, vec!["\x1b[7m\x1b[0ma\x1b[7m\x1b[0mb\x1b[7m\x1b[0m"]);
}

#[test]
fn config_holds_its_values() {
    let config = Config::new(
        String::from("pattern"),
        String::from("filename"),
        true,
        true,
    );
    assert_eq!(config.pattern(), "pattern");
    assert_eq!(config.filename(), "filename");
    assert_eq!(config.case_sensitive(), &true);
    assert_eq!(config.highlight_match(), &true);
}

#[test]
fn matcher_decides_the_strategy_once_per_call() {
    let m = minigrep::Matcher::new("fast.*", false);
    assert!(m.is_match("so fast"));
    assert!(!m.is_match("slow"));
    assert_eq!(m.render("so fast", true), "so \x1b[7mfast\x1b[0m");
    assert_eq!(m.render("so fast", false), "so fast");

    let fallback = minigrep::Matcher::new("a(", true);
    assert!(fallback.is_match("an a( here"));
    assert!(!fallback.is_match("an A( here"));
}
