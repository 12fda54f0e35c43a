use git_mover::utils::{parse_number, parse_yes_no, strip_line_ending, yes_no_from_lowercase};
use git_mover::Repo;

fn sample(name: &str, path: &str, description: &str, private: bool, fork: bool) -> Repo {
    Repo {
        name: name.to_string(),
        path: path.to_string(),
        description: description.to_string(),
        private,
        fork,
    }
}

#[test]
fn compare_repo() {
    let repo1 = Repo {
        name: "test".to_string(),
        path: "test".to_string(),
        description: "test".to_string(),
        private: false,
        fork: false,
    };
    let repo2 = Repo {
        name: "test".to_string(),
        path: "test".to_string(),
        description: "test".to_string(),
        private: false,
        fork: false,
    };
    let repo3 = Repo {
        name: "test".to_string(),
        path: "test".to_string(),
        description: "test".to_string(),
        private: true,
        fork: false,
    };
    assert!(repo1 == repo2);
    assert!(repo1 != repo3);
    assert_eq!(repo1, repo2);
}

#[test]
fn identity_ignores_the_path() {
    let a = sample("tool", "tool", "a tool", false, false);
    let b = sample("tool", "group-tool", "a tool", false, false);
    assert_eq!(a, b);
}

#[test]
fn identity_reads_name_description_privacy_and_fork() {
    let a = sample("tool", "tool", "a tool", false, false);
    assert_ne!(a, sample("other", "tool", "a tool", false, false));
    assert_ne!(a, sample("tool", "tool", "another tool", false, false));
    assert_ne!(a, sample("tool", "tool", "a tool", true, false));
    assert_ne!(a, sample("tool", "tool", "a tool", false, true));
}

#[test]
fn clone_keeps_every_field() {
    let a = sample("tool", "group-tool", "a tool", true, true);
    let b = a.clone();
    assert_eq!(b.name, "tool");
    assert_eq!(b.path, "group-tool");
    assert_eq!(b.description, "a tool");
    assert!(b.private);
    assert!(b.fork);
}

#[test]
fn default_repo_is_empty_and_public() {
    let r = Repo::default();
    assert_eq!(r.name, "");
    assert_eq!(r.path, "");
    assert_eq!(r.description, "");
    assert!(!r.private);
    assert!(!r.fork);
}

#[test]
fn full_name_is_the_name_when_the_path_is_the_same() {
    assert_eq!(sample("tool", "tool", "", false, false).show_full_name(), "tool");
}

#[test]
fn full_name_shows_a_different_path() {
    assert_eq!(
        sample("My Tool", "my-tool", "", false, false).show_full_name(),
        "My Tool at path 'my-tool'"
    );
}

#[test]
fn yes_and_no_are_read_in_any_case() {
    assert_eq!(parse_yes_no("y"), Some(true));
    assert_eq!(parse_yes_no("Y"), Some(true));
    assert_eq!(parse_yes_no("yes"), Some(true));
    assert_eq!(parse_yes_no("YES"), Some(true));
    assert_eq!(parse_yes_no("Yes"), Some(true));
    assert_eq!(parse_yes_no("n"), Some(false));
    assert_eq!(parse_yes_no("N"), Some(false));
    assert_eq!(parse_yes_no("no"), Some(false));
    assert_eq!(parse_yes_no("NO"), Some(false));
    assert_eq!(parse_yes_no("No"), Some(false));
}

#[test]
fn lowercase_replies_are_read() {
    assert_eq!(yes_no_from_lowercase("y"), Some(true));
    assert_eq!(yes_no_from_lowercase("yes"), Some(true));
    assert_eq!(yes_no_from_lowercase("Yes "), Some(true));
    assert_eq!(yes_no_from_lowercase("n"), Some(false));
    assert_eq!(yes_no_from_lowercase("no"), Some(false));
    assert_eq!(yes_no_from_lowercase("No"), Some(false));
    assert_eq!(yes_no_from_lowercase("yes "), None);
    assert_eq!(yes_no_from_lowercase("Yes"), None);
    assert_eq!(yes_no_from_lowercase(""), None);
}

#[test]
fn other_replies_are_not_answers() {
    assert_eq!(parse_yes_no(""), None);
    assert_eq!(parse_yes_no("maybe"), None);
    assert_eq!(parse_yes_no("yes "), None);
    assert_eq!(parse_yes_no(" y"), None);
    assert_eq!(parse_yes_no("yy"), None);
}

#[test]
fn line_endings_are_stripped() {
    assert_eq!(strip_line_ending("hello\n"), "hello");
    assert_eq!(strip_line_ending("hello\r\n"), "hello");
    assert_eq!(strip_line_ending("hello"), "hello");
    assert_eq!(strip_line_ending("hello\r"), "hello");
    assert_eq!(strip_line_ending(""), "");
    assert_eq!(strip_line_ending("\n"), "");
    assert_eq!(strip_line_ending("\r\n"), "");
}

#[test]
fn only_one_line_ending_is_stripped() {
    assert_eq!(strip_line_ending("hello\n\n"), "hello\n");
    assert_eq!(strip_line_ending("hello\n\r"), "hello\n");
    assert_eq!(strip_line_ending("h\u{e9}llo \u{1f47e}\r\n"), "h\u{e9}llo \u{1f47e}");
}

#[test]
fn numbers_are_read_in_decimal() {
    assert_eq!(parse_number("0"), Some(0));
    assert_eq!(parse_number("2"), Some(2));
    assert_eq!(parse_number("007"), Some(7));
    assert_eq!(parse_number("+15"), Some(15));
    assert_eq!(parse_number("1234567890"), Some(1234567890));
}

#[test]
fn numbers_agree_with_the_standard_parser() {
    let samples = [
        "", "+", "-", "-1", "1 ", " 1", "1a", "a1", "++1", "1+", "0x10", "12", "+0", "99999999999",
        "18446744073709551615", "18446744073709551616", "184467440737095516150", "4294967295",
        "4294967296", "\u{663}",
    ];
    for s in samples {
        assert_eq!(parse_number(s), s.parse::<usize>().ok(), "for {:?}", s);
    }
}
