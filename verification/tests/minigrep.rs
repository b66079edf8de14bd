use primer::minigrep::{
    contains_str, last_char_of_first_line, search, search_case_insensitive, split_lines, Config,
};

#[test]
fn case_sensitive() {
    let query = "duct";
    let contents = "\
Rust:
safe, fast, productive.
Pick three.";

    assert_eq!(vec!["safe, fast, productive."], search(query, contents));
}

#[test]
fn case_insensitive() {
    let query = "rUsT";
    let contents = "\
Rust:
safe, fast, productive.
Pick three.
Trust me.";

    assert_eq!(vec!["Rust:", "Trust me."], search_case_insensitive(query, contents));
}

#[test]
fn search_can_return_every_line() {
    let contents = "one\ntwo\nthree";
    assert_eq!(vec!["one", "two", "three"], search("", contents));
}

#[test]
fn search_of_empty_text_finds_nothing() {
    let empty: Vec<&str> = Vec::new();
    assert_eq!(empty, search("anything", ""));
}

#[test]
fn split_lines_drops_terminators() {
    assert_eq!(vec!["a", "b"], split_lines("a\nb"));
    assert_eq!(vec!["a", "b"], split_lines("a\r\nb\r\n"));
    assert_eq!(vec!["a", "", "b"], split_lines("a\n\nb"));
    let none: Vec<&str> = Vec::new();
    assert_eq!(none, split_lines(""));
    assert_eq!(vec!["tail\r"], split_lines("tail\r"));
}

#[test]
fn contains_str_finds_runs() {
    assert!(contains_str("productive", "duct"));
    assert!(!contains_str("productive", "Duct"));
    assert!(contains_str("anything", ""));
    assert!(!contains_str("", "a"));
    assert!(contains_str("aab", "ab"));
}

#[test]
fn last_char_of_first_line_cases() {
    assert_eq!(Some('d'), last_char_of_first_line("Hello world\nhi"));
    assert_eq!(Some('i'), last_char_of_first_line("hi"));
    assert_eq!(None, last_char_of_first_line(""));
    assert_eq!(None, last_char_of_first_line("\nabc"));
}

fn args_of(words: &[&str]) -> Vec<String> {
    words.iter().map(|w| String::from(*w)).collect()
}

#[test]
fn config_reads_query_and_filename() {
    let args = args_of(&["prog", "needle", "haystack.txt"]);
    let config = Config::new(&args, false).unwrap();
    assert_eq!(config.query, "needle");
    assert_eq!(config.filename, "haystack.txt");
    assert!(!config.ignore_case);
}

#[test]
fn config_keeps_the_case_flag() {
    let args = args_of(&["prog", "needle", "haystack.txt", "extra"]);
    let config = Config::new(&args, true).unwrap();
    assert!(config.ignore_case);
}

#[test]
fn config_rejects_a_missing_query() {
    let args = args_of(&["prog"]);
    assert_eq!(Err("Didn't get a query string"), Config::new(&args, false).map(|_| ()));
}

#[test]
fn config_rejects_a_missing_filename() {
    let args = args_of(&["prog", "needle"]);
    assert_eq!(Err("Didn't get a file name"), Config::new(&args, false).map(|_| ()));
}
