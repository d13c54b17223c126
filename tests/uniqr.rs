use rusty_utils::uniqr::{format_run, uniq_lines, Config, FileInfo};

fn lines_of(v: &[&str]) -> Vec<String> {
    v.iter().map(|s| s.to_string()).collect()
}

#[test]
fn collapses_adjacent_duplicates() {
    let input = lines_of(&["a", "a", "b", "a"]);
    assert_eq!(uniq_lines(&input, false), lines_of(&["a", "b", "a"]));
}

#[test]
fn counts_adjacent_duplicates() {
    let input = lines_of(&["a", "a", "b", "a"]);
    assert_eq!(uniq_lines(&input, true), lines_of(&["     2 a", "     1 b", "     1 a"]));
}

#[test]
fn empty_input_gives_no_output() {
    assert_eq!(uniq_lines(&Vec::new(), true), Vec::<String>::new());
}

#[test]
fn comparison_is_exact() {
    let input = lines_of(&["A", "a", "a ", "a ", ""]);
    assert_eq!(uniq_lines(&input, false), lines_of(&["A", "a", "a ", ""]));
    assert_eq!(format_run(&"z".to_string(), 3, false), "z");
}

#[test]
fn config_defaults_to_stdin() {
    let c = Config::new(None, None, true);
    assert_eq!(c.in_file, "-");
    assert!(c.count);
    let c = Config::new(Some("in".to_string()), Some("out".to_string()), false);
    assert_eq!(c.in_file, "in");
    assert_eq!(c.out_file, Some("out".to_string()));
    let info = FileInfo { num_lines: 1, num_words: 2, num_bytes: 3, num_chars: 3 };
    assert_eq!(info, FileInfo { num_lines: 1, num_words: 2, num_bytes: 3, num_chars: 3 });
}
