use chrome_launcher::cli::parse_window_size;
use chrome_launcher::strutil;

#[test]
fn test_parse_window_size() {
    assert_eq!(parse_window_size("1920x1080"), Some((1920, 1080)));
    assert_eq!(parse_window_size("800x600"), Some((800, 600)));
    assert_eq!(parse_window_size("invalid"), None);
    assert_eq!(parse_window_size("1920"), None);
    assert_eq!(parse_window_size("ax1080"), None);
}

#[test]
fn test_parse_window_size_edges() {
    // Exactly one separator is required.
    assert_eq!(parse_window_size(""), None);
    assert_eq!(parse_window_size("x"), None);
    assert_eq!(parse_window_size("10x20x30"), None);
    assert_eq!(parse_window_size("10x"), None);
    assert_eq!(parse_window_size("x20"), None);
    // Zero is a value like any other; the builder formats it verbatim.
    assert_eq!(parse_window_size("0x0"), Some((0, 0)));
    // Each half parses exactly as a 32-bit non-negative integer does: a
    // leading plus sign is tolerated, overflow and signs are not.
    assert_eq!(parse_window_size("+5x+6"), Some((5, 6)));
    assert_eq!(parse_window_size("4294967295x1"), Some((4294967295, 1)));
    assert_eq!(parse_window_size("4294967296x1"), None);
    assert_eq!(parse_window_size("-5x6"), None);
    assert_eq!(parse_window_size("5.0x6"), None);
    assert_eq!(parse_window_size(" 5x6"), None);
}

#[test]
fn test_string_helpers() {
    assert_eq!(strutil::trim("  hello \n"), "hello");
    assert_eq!(strutil::trim(""), "");
    assert_eq!(strutil::trim(" \t "), "");
    assert_eq!(strutil::u64_to_string(0), "0");
    assert_eq!(strutil::u64_to_string(90210), "90210");
    assert_eq!(strutil::parse_u32("90210"), Some(90210));
    assert_eq!(strutil::parse_u32(""), None);
    assert_eq!(strutil::parse_u32("12a"), None);
    assert_eq!(
        strutil::split_lines("a\r\nb\nc"),
        vec!["a".to_string(), "b".to_string(), "c".to_string()]
    );
    assert_eq!(strutil::split_lines(""), Vec::<String>::new());
    assert_eq!(strutil::split_lines("one\n"), vec!["one".to_string()]);
    assert_eq!(strutil::first_token("  lead rest"), Some("lead"));
    assert_eq!(strutil::first_token("   "), None);
    assert_eq!(strutil::second_token("Chromium 99.1 x"), Some("99.1"));
    assert_eq!(strutil::second_token("Chromium"), None);
    assert!(strutil::contains_ci("Path/To/GOOGLE chrome.app", "Google Chrome"));
    assert!(!strutil::contains_ci("nothing here", "Google Chrome"));
    assert_eq!(strutil::find_sub("see spot.app run", ".app", 0), Some(8));
    assert_eq!(strutil::find_sub("no marker", ".app", 0), None);
}
