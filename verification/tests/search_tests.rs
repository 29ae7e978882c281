use minigrep::search_regex;

#[test]
fn case_sensitive_lower_to_lower() {
    let pattern = "duct";
    let text = "\
Rust:
Safe, fast, productive.
Pick three.";

    assert_eq!(
        search_regex(pattern, text, true, false),
        vec!["Safe, fast, productive."]
    );
}

#[test]
fn case_sensitive_upper_to_upper() {
    let pattern = "DUCT";
    let text = "\
RUST:
SAFE, FAST, PRODUCTIVE.
PICK THREE.";

    assert_eq!(
        search_regex(pattern, text, true, false),
        vec!["SAFE, FAST, PRODUCTIVE."]
    );
}

#[test]
fn case_sensitive_upper_to_lower() {
    let pattern = "DUCT";
    let text = "\
Rust:
Safe, fast, productive.
Pick three.";

    assert_eq!(search_regex(pattern, text, true, false).len(), 0);
}

#[test]
fn case_insensitive() {
    let pattern = "DUCT";
    let text = "\
Rust:
Safe, fast, productive.
Pick three.";

    assert_eq!(
        search_regex(pattern, text, false, false),
        vec!["Safe, fast, productive."]
    );
}

#[test]
fn regex() {
    let pattern = "fast.*tive";
    let text = "\
Rust:
Safe, fast, productive.
Pick three.";

    assert_eq!(
        search_regex(pattern, text, false, false),
        vec!["Safe, fast, productive."]
    )
}

#[test]
fn invalid_regex_fallback_to_string() {
    let pattern = "!f!o---b\\ar|";
    let text = "\
!f!o---b\\ar|
Rust:
Safe, fast, productive.
Pick three.";

    assert_eq!(
        search_regex(pattern, text, false, false),
        vec!["!f!o---b\\ar|"]
    )
}

#[test]
fn invalid_regex_fallback_to_string_with_highlight() {
    let pattern = "!f!o---b\\ar|";
    let text = "\
!f!o---b\\ar|Just a normal sentence.
Rust:
Safe, fast, productive.
Pick three.";

    assert_eq!(
        search_regex(pattern, text, false, true),
        vec!["\x1b[7m!f!o---b\\ar|\x1b[0mJust a normal sentence."]
    )
}

#[test]
fn highlight_regex_match() {
    let pattern = "fast.*tive";
    let text = "\
Rust:
Safe, fast, productive.
Pick three.";

    assert_eq!(
        search_regex(pattern, text, false, true),
        vec!["Safe, \x1b[7mfast, productive\x1b[0m."]
    )
}

#[test]
fn highlight_multiple_lines_regex_match() {
    let pattern = "fast.*";
    let text = "\
Rust:
Safe, fast, productive.
Pick three.
Yes! It's pretty fast!";

    assert_eq!(
        search_regex(pattern, text, false, true),
        vec![
            "Safe, \x1b[7mfast, productive.\x1b[0m",
            "Yes! It's pretty \x1b[7mfast!\x1b[0m",
        ]
    )
}
