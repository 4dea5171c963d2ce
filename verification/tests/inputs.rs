use verified_bot_commit::inputs::{
    get_bool_input, get_multiline_input, input_env_name, parse_max_retries, parse_u32,
};

#[test]
fn bool_inputs() {
    assert!(get_bool_input("true"));
    assert!(get_bool_input("TRUE"));
    assert!(get_bool_input("True"));
    assert!(get_bool_input("tRuE"));
    assert!(!get_bool_input("false"));
    assert!(!get_bool_input(""));
    assert!(!get_bool_input(" true"));
    assert!(!get_bool_input("yes"));
    assert!(!get_bool_input("truee"));
}

#[test]
fn multiline_inputs() {
    assert_eq!(
        get_multiline_input("README.md\n*.txt\n\nsrc/**\n"),
        vec!["README.md", "*.txt", "src/**"]
    );
    assert_eq!(get_multiline_input("a\r\nb\r\n"), vec!["a", "b"]);
    assert_eq!(get_multiline_input("a\nb\r"), vec!["a", "b\r"]);
    assert_eq!(get_multiline_input("\r\n\n"), Vec::<String>::new());
    assert_eq!(get_multiline_input(""), Vec::<String>::new());
    assert_eq!(get_multiline_input("  x  "), vec!["  x  "]);
}

#[test]
fn multiline_round_trip() {
    let lines = vec!["README.md", "!test-data/x", "test-data/**"];
    assert_eq!(get_multiline_input(&lines.join("\n")), lines);
}

#[test]
fn env_names() {
    assert_eq!(input_env_name("max-retries"), "INPUT_MAX_RETRIES");
    assert_eq!(input_env_name("ref"), "INPUT_REF");
    assert_eq!(input_env_name("allow-empty-commit"), "INPUT_ALLOW_EMPTY_COMMIT");
}

#[test]
fn u32_parsing() {
    assert_eq!(parse_u32("0"), Some(0));
    assert_eq!(parse_u32("+7"), Some(7));
    assert_eq!(parse_u32("007"), Some(7));
    assert_eq!(parse_u32("4294967295"), Some(u32::MAX));
    assert_eq!(parse_u32("4294967296"), None);
    assert_eq!(parse_u32("99999999999999999999"), None);
    assert_eq!(parse_u32(""), None);
    assert_eq!(parse_u32("+"), None);
    assert_eq!(parse_u32("-1"), None);
    assert_eq!(parse_u32(" 1"), None);
    assert_eq!(parse_u32("1a"), None);
    for s in ["0", "+7", "42", "4294967295", "4294967296", "", "+", "-0", "x"] {
        assert_eq!(parse_u32(s), s.parse::<u32>().ok());
    }
}

#[test]
fn max_retries_default() {
    assert_eq!(parse_max_retries("3"), 3);
    assert_eq!(parse_max_retries(""), 1);
    assert_eq!(parse_max_retries("many"), 1);
}
