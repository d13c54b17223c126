use rusty_utils::error::ToolError;
use rusty_utils::headr::{head_bytes, head_lines, header, parse_positive_int, wants_more_lines, Config};

#[test]
fn test_parse_positive_int() {
    // 3 is an OK integer
    let res = parse_positive_int("3");
    assert!(res.is_ok());
    assert_eq!(res.unwrap(), 3);

    // Any string is an error
    let res = parse_positive_int("foo");
    assert!(res.is_err());
    assert_eq!(res.unwrap_err().to_string(), "foo".to_string());

    // A zero is an error
    let res = parse_positive_int("0");
    assert!(res.is_err());
    assert_eq!(res.unwrap_err().to_string(), "0".to_string());
}

#[test]
fn parse_positive_int_edges() {
    assert_eq!(parse_positive_int("+7"), Ok(7));
    assert_eq!(parse_positive_int("007"), Ok(7));
    assert_eq!(parse_positive_int(""), Err(String::new()));
    assert_eq!(parse_positive_int("+"), Err("+".to_string()));
    assert_eq!(parse_positive_int("-1"), Err("-1".to_string()));
    assert_eq!(parse_positive_int(" 5"), Err(" 5".to_string()));
    assert_eq!(parse_positive_int("18446744073709551615"), Ok(usize::MAX));
    assert_eq!(
        parse_positive_int("18446744073709551616"),
        Err("18446744073709551616".to_string())
    );
}

fn lines_of(v: &[&str]) -> Vec<String> {
    v.iter().map(|s| s.to_string()).collect()
}

#[test]
fn head_lines_shorter_source_is_whole() {
    let src = lines_of(&["1\n", "2\n", "3\n", "4\n", "5\n"]);
    assert_eq!(head_lines(&src, 10), src);
}

#[test]
fn head_lines_stops_at_limit() {
    let src = lines_of(&["1\n", "2\n", "3\n", "4\n", "5\n"]);
    assert_eq!(head_lines(&src, 2), lines_of(&["1\n", "2\n"]));
    assert_eq!(head_lines(&Vec::new(), 3), Vec::<String>::new());
}

#[test]
fn head_bytes_takes_prefix() {
    assert_eq!(head_bytes(&b"hello".to_vec(), 4), "hell");
    assert_eq!(head_bytes(&b"hi".to_vec(), 4), "hi");
}

#[test]
fn head_bytes_replaces_invalid_utf8() {
    assert_eq!(head_bytes(&vec![b'a', 0xff, b'b'], 3), "a\u{FFFD}b");
    // a cut inside a multi-byte character leaves a replacement character
    assert_eq!(head_bytes(&"é".as_bytes().to_vec(), 1), "\u{FFFD}");
}

#[test]
fn header_only_for_several_sources() {
    let name = "a.txt".to_string();
    assert_eq!(header(&name, 0, 1), None);
    assert_eq!(header(&name, 0, 2), Some("==> a.txt <==".to_string()));
    assert_eq!(header(&name, 1, 2), Some("\n==> a.txt <==".to_string()));
}

fn config_message(r: Result<Config, ToolError>) -> String {
    match r {
        Err(ToolError::ConfigError { message }) => message,
        Err(e) => panic!("unexpected error {}", e.to_string()),
        Ok(_) => panic!("expected an error"),
    }
}

#[test]
fn config_defaults() {
    let c = Config::from_args(Vec::new(), None, None).ok().unwrap();
    assert_eq!(c.files, vec!["-".to_string()]);
    assert_eq!(c.lines, 10);
    assert_eq!(c.bytes, None);
    assert!(wants_more_lines(&c, 9));
    assert!(!wants_more_lines(&c, 10));
}

#[test]
fn config_with_counts() {
    let files = lines_of(&["a", "b"]);
    let c = Config::from_args(files.clone(), Some("3"), None).ok().unwrap();
    assert_eq!(c.files, files);
    assert_eq!(c.lines, 3);
    let c = Config::from_args(files, None, Some("4")).ok().unwrap();
    assert_eq!(c.bytes, Some(4));
    assert!(!wants_more_lines(&c, 0));
}

#[test]
fn config_rejects_bad_counts() {
    assert_eq!(
        config_message(Config::from_args(Vec::new(), Some("foo"), None)),
        "illegal line count -- foo"
    );
    assert_eq!(
        config_message(Config::from_args(Vec::new(), Some("0"), None)),
        "illegal line count -- 0"
    );
    assert_eq!(
        config_message(Config::from_args(Vec::new(), None, Some("-2"))),
        "illegal byte count -- -2"
    );
    assert!(Config::from_args(Vec::new(), Some("1"), Some("1")).is_err());
}
