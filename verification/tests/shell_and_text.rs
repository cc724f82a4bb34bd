use fabro_sandbox::aca::command::{wrap_command, EnvVar};
use fabro_sandbox::decimal::{parse_u64, push_i64, push_u64};
use fabro_sandbox::shell::shell_quote;
use fabro_sandbox::text::{
    at_most, blank, eq_ignore_ascii_case, lines, replace_all, sorted_strings, split_once, strip_prefix,
    strip_suffix, trim, trim_end_char,
};

fn env(key: &str, value: &str) -> EnvVar {
    EnvVar { key: key.to_string(), value: value.to_string() }
}

#[test]
fn plain_words_are_not_quoted() {
    assert_eq!(shell_quote("/workspace/test.txt"), "/workspace/test.txt");
    assert_eq!(shell_quote("fabro/run/run-1"), "fabro/run/run-1");
    assert_eq!(shell_quote("bar"), "bar");
}

#[test]
fn other_words_are_quoted() {
    assert_eq!(shell_quote(""), "''");
    assert_eq!(shell_quote("*.rs"), "'*.rs'");
    assert_eq!(shell_quote("a b; rm -rf /"), "'a b; rm -rf /'");
    assert_eq!(shell_quote("it's"), "'it'\\''s'");
    assert_eq!(shell_quote("$HOME"), "'$HOME'");
}

#[test]
fn environment_is_sorted_and_loses_bash_env() {
    let line = wrap_command(
        "echo ok",
        None,
        &vec![env("ZED", "1 2"), env("BASH_ENV", "/evil"), env("ALPHA", "")],
    );
    assert_eq!(line, "env -u BASH_ENV ALPHA='' ZED='1 2' /bin/bash -c 'echo ok'");
    let other = wrap_command("echo ok", None, &vec![env("ALPHA", ""), env("ZED", "1 2")]);
    assert_eq!(line, other);
}

#[test]
fn directories_are_quoted_inside_the_quoted_script() {
    let line = wrap_command("pwd", Some("/my dir"), &Vec::new());
    assert_eq!(line, "env -u BASH_ENV /bin/bash -c 'cd '\\''/my dir'\\'' && pwd'");
}

#[test]
fn numerals_are_written_and_read_back() {
    for n in [0u64, 7, 10, 42, 1000, u64::MAX] {
        let mut s = String::new();
        push_u64(&mut s, n);
        assert_eq!(s, n.to_string());
        assert_eq!(parse_u64(&s), Some(n));
    }
    for n in [0i64, -1, -10, i64::MIN, i64::MAX] {
        let mut s = String::new();
        push_i64(&mut s, n);
        assert_eq!(s, n.to_string());
    }
}

#[test]
fn numerals_are_read_as_std_does() {
    for s in ["", "+", "-1", "1x", " 1", "18446744073709551616", "99999999999999999999999", "+5", "007", "++1"] {
        assert_eq!(parse_u64(s), s.parse::<u64>().ok(), "{}", s);
    }
}

#[test]
fn case_is_ignored_for_ascii_only() {
    assert!(eq_ignore_ascii_case("MANAGED", "managed"));
    assert!(!eq_ignore_ascii_case("É", "é"));
    assert!(!eq_ignore_ascii_case("a", "ab"));
}

#[test]
fn lines_are_split_as_std_does() {
    for s in ["", "a", "a\n", "a\nb", "a\r\nb\r", "\n\n", "\r\n", "a\n\r", "x\r\r\ny"] {
        let expected: Vec<String> = s.lines().map(String::from).collect();
        assert_eq!(lines(s), expected, "{:?}", s);
    }
}

#[test]
fn white_space_is_trimmed_as_std_does() {
    for s in ["", "  a b ", "\u{a0}x\u{3000}", "\u{2003}", "a\n", "\u{85}\u{200b}"] {
        assert_eq!(trim(s), s.trim(), "{:?}", s);
        assert_eq!(blank(s), s.trim().is_empty(), "{:?}", s);
    }
}

#[test]
fn parts_are_found_as_std_does() {
    assert_eq!(strip_prefix("https://x", "https://").as_deref(), Some("x"));
    assert_eq!(strip_prefix("http://x", "https://"), None);
    assert_eq!(strip_suffix("2048Mi", "Mi").as_deref(), Some("2048"));
    assert_eq!(strip_suffix("2048", "Mi"), None);
    assert_eq!(strip_suffix("Mi", "Mi").as_deref(), Some(""));
    assert_eq!(split_once("a:b:c", ':'), Some(("a".to_string(), "b:c".to_string())));
    assert_eq!(split_once("abc", ':'), None);
    assert_eq!(trim_end_char("a///", '/'), "a");
}

#[test]
fn replacement_leaves_nothing_behind() {
    assert_eq!(replace_all("ababa", "aba", "***"), "***ba");
    assert_eq!(replace_all("x tok y tok", "tok", "***"), "x *** y ***");
    assert_eq!(replace_all("abc", "", "***"), "abc");
    assert_eq!(replace_all("aab", "ab", "***"), "a***");
}

#[test]
fn strings_are_sorted_as_std_does() {
    let v = vec!["b=1".to_string(), "a=2".to_string(), "a=10".to_string(), "é".to_string(), "a=2".to_string()];
    let mut expected = v.clone();
    expected.sort();
    assert_eq!(sorted_strings(&v), expected);
    assert!(at_most("a", "a"));
    assert!(!at_most("b", "a"));
}
