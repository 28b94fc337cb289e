use task_executor::minigrep::{contains, run, search, search_case_insensitive, to_chars, Config};

#[test]
fn case_sensitive() {
    let query = "duct";
    let contents = "\
Rust:
safe, fast, productive.
Pick three.
Duct tape.";

    assert_eq!(vec!["safe, fast, productive."], search(query, contents));
}

#[test]
fn case_insesitive() {
    let query = "rUsT";
    let contents = "\
Rust:
safe, fast, productive.
Pick three.
Trust me.";

    assert_eq!(
        vec!["Rust:", "Trust me."],
        search_case_insensitive(query, contents)
    );
}

#[test]
fn one_result() {
    let query = "safe, fast, productive.";
    let contents = "\
Rust:
safe, fast, productive.
Pick three.";
    assert_eq!(vec!["safe, fast, productive."], search(query, contents));
}

#[test]
fn search_splits_lines_as_the_standard_library_does() {
    let texts = [
        "",
        "\n",
        "a",
        "a\n",
        "a\nb",
        "a\n\nb\n",
        "a\r\nb\r\n",
        "a\r\nb\r",
        "\r\n",
        "\r",
        "a\rb\nc",
        "\n\n",
        "one\r\r\ntwo",
        "h\u{e9}llo\nw\u{f6}rld\r\n\u{4e16}\u{754c}",
    ];
    for text in texts {
        let expected: Vec<&str> = text.lines().collect();
        assert_eq!(search("", text), expected, "lines of {:?}", text);
    }
}

#[test]
fn search_keeps_the_order_and_the_duplicates() {
    let contents = "ab\nxx\nab\nabab\nb";
    assert_eq!(search("ab", contents), vec!["ab", "ab", "abab"]);
    assert_eq!(search("b", contents), vec!["ab", "ab", "abab", "b"]);
    assert!(search("abc", contents).is_empty());
}

#[test]
fn search_does_not_ignore_case() {
    let contents = "Rust:\nTrust me.";
    assert_eq!(search("rust", contents), vec!["Trust me."]);
    assert_eq!(search("RUST", contents), Vec::<&str>::new());
}

#[test]
fn search_case_insensitive_lowers_both_sides() {
    let contents = "STRASSE\nstrasse\nGr\u{fc}\u{df}e\nGR\u{dc}SSE";
    assert_eq!(
        search_case_insensitive("Strasse", contents),
        vec!["STRASSE", "strasse"]
    );
    assert_eq!(
        search_case_insensitive("\u{dc}", contents),
        vec!["Gr\u{fc}\u{df}e", "GR\u{dc}SSE"]
    );
    assert_eq!(search("\u{dc}", contents), vec!["GR\u{dc}SSE"]);
}

#[test]
fn contains_finds_a_needle_at_every_place() {
    assert!(contains("", ""));
    assert!(contains("abc", ""));
    assert!(contains("abc", "a"));
    assert!(contains("abc", "bc"));
    assert!(contains("abc", "abc"));
    assert!(!contains("abc", "abcd"));
    assert!(!contains("abc", "ac"));
    assert!(!contains("", "a"));
    assert!(contains("aab", "ab"));
}

#[test]
fn to_chars_gives_every_character() {
    assert_eq!(to_chars("h\u{e9}\u{4e16}"), vec!['h', '\u{e9}', '\u{4e16}']);
    assert!(to_chars("").is_empty());
}

#[test]
fn build_takes_the_query_and_the_path() {
    let args = vec![
        String::from("minigrep"),
        String::from("needle"),
        String::from("haystack.txt"),
        String::from("extra"),
    ];
    let config = Config::build(args, true).unwrap();
    assert_eq!(config.query, "needle");
    assert_eq!(config.file_path, "haystack.txt");
    assert!(config.ignore_case);
}

#[test]
fn build_says_what_is_missing() {
    assert_eq!(
        Config::build(Vec::new(), false).err(),
        Some("Didn't get a query string")
    );
    assert_eq!(
        Config::build(vec![String::from("minigrep")], false).err(),
        Some("Didn't get a query string")
    );
    assert_eq!(
        Config::build(vec![String::from("minigrep"), String::from("q")], false).err(),
        Some("Didn't get a file path")
    );
}

#[test]
fn run_reports_the_lines_with_the_query_as_written() {
    let args = vec![
        String::from("minigrep"),
        String::from("rust"),
        String::from("poem.txt"),
    ];
    let config = Config::build(args, true).unwrap();
    assert_eq!(run(&config, "Rust:\nTrust me."), vec!["Trust me."]);
}
