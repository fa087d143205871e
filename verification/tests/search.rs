use primer::search;
use primer::search_case_insensitive;
use primer::Config;

#[test]
fn case_sensitive() {
    let query = "duct";
    let contents = "\
Rust:
safe, fast, productive.
Pick three.
Duct tape.";

    assert_eq!(
        vec!["safe, fast, productive.".to_string()],
        search(query, contents)
    );
}

#[test]
fn case_insensitive() {
    let query = "RUST";
    let contents = "\
Rust:
safe, fast, productive.
trust me.";

    assert_eq!(
        vec!["Rust:".to_string(), "trust me.".to_string()],
        search_case_insensitive(query, contents)
    );
}

#[test]
fn empty_query_matches_every_line() {
    let lines = search("", "one\ntwo\nthree");
    assert_eq!(
        vec!["one".to_string(), "two".to_string(), "three".to_string()],
        lines
    );
}

#[test]
fn no_match_returns_nothing() {
    let lines = search("zebra", "one\ntwo\nthree");
    assert!(lines.is_empty());
}

#[test]
fn windows_line_endings_are_stripped() {
    let lines = search("a", "ab\r\ncd\r\n");
    assert_eq!(vec!["ab".to_string()], lines);
}

#[test]
fn trailing_newline_adds_no_line() {
    let lines = search("", "x\n");
    assert_eq!(vec!["x".to_string()], lines);
}

#[test]
fn config_needs_three_arguments() {
    let args = vec!["minigrep".to_string(), "query".to_string()];
    let config = Config::new(args, false);
    assert_eq!(Err("not enough arguments!"), config.map(|_| ()));
}

#[test]
fn config_takes_query_then_filename() {
    let args = vec![
        "minigrep".to_string(),
        "needle".to_string(),
        "haystack.txt".to_string(),
    ];
    let config = Config::new(args, false).unwrap();
    assert_eq!("needle", config.query);
    assert_eq!("haystack.txt", config.filename);
    assert!(config.case_sensitive);
}

#[test]
fn config_honors_case_insensitive_environment() {
    let args = vec![
        "minigrep".to_string(),
        "needle".to_string(),
        "haystack.txt".to_string(),
    ];
    let config = Config::new(args, true).unwrap();
    assert!(!config.case_sensitive);
}
