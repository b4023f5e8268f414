use adhoc_derive::regex::{
    repair_group_names, replace_numbered_capture_groups, PatternError, PatternErrorKind, Repaired,
};
use regex::Regex;

fn normalized(pattern: &str) -> String {
    let mut regex = String::from(pattern);
    replace_numbered_capture_groups(&mut regex).unwrap();
    regex
}

fn failure(pattern: &str) -> PatternError {
    let mut regex = String::from(pattern);
    replace_numbered_capture_groups(&mut regex).unwrap_err()
}

#[test]
fn valid_patterns_come_back_unchanged() {
    for pattern in [
        "",
        "foo",
        r"^#(?P<id>\d+) @ (?P<x>\d+),(?P<y>\d+): (?P<width>\d+)x(?P<height>\d+)$",
        r"(a)(b)(?:c)",
        r"^maybe (?P<a>true|false)\?$",
        r"(?P<__0>\d+)",
    ] {
        let mut regex = String::from(pattern);
        let out = repair_group_names(&mut regex);
        assert_eq!(pattern, regex);
        assert_eq!(Repaired { attempts: 1, renamed: 0, failure: None }, out);
    }
}

#[test]
fn normalizing_twice_is_normalizing_once() {
    for pattern in [
        r"^(?P<0>\d+)$",
        r"^(?P<0>\d+): (?P<1>\d+)$",
        r"^(?P<2>(?P<0>\d+): (?P<a>\d+))$",
        r"^bar (?P<0>\d+)$",
    ] {
        let once = normalized(pattern);
        let mut twice = once.clone();
        let out = repair_group_names(&mut twice);
        assert_eq!(once, twice);
        assert_eq!(0, out.renamed);
        assert_eq!(None, out.failure);
    }
}

#[test]
fn numeric_group_rename_keeps_the_captures() {
    let regex = normalized(r"^(?P<0>\d+): (?P<1>\d+)$");
    assert_eq!(r"^(?P<__0>\d+): (?P<__1>\d+)$", regex);
    let re = Regex::new(&regex).unwrap();
    let captures = re.captures("3: 4").unwrap();
    assert_eq!(3, captures.len());
    assert_eq!("3", &captures[1]);
    assert_eq!("4", &captures[2]);
    assert_eq!("3", captures.name("__0").unwrap().as_str());
    assert_eq!("4", captures.name("__1").unwrap().as_str());
}

#[test]
fn repair_only_inserts_prefixes() {
    for (pattern, renamed) in [
        (r"^(?P<0>\d+)$", 1usize),
        (r"^(?P<0>\d+): (?P<1>\d+)$", 2),
        (r"^(?P<2>(?P<0>\d+): (?P<a>\d+))$", 2),
        (r"(?P<0>a)(?P<1>b)(?P<2>c)(x)(?P<_y>d)", 3),
        (r"(?P<007>a)", 1),
        ("foo", 0),
    ] {
        let mut regex = String::from(pattern);
        let out = repair_group_names(&mut regex);
        assert_eq!(None, out.failure);
        assert_eq!(renamed, out.renamed);
        assert_eq!(pattern.len() + 2 * renamed, regex.len());
        let kept: String = regex.chars().filter(|c| *c != '_').collect();
        let before: String = pattern.chars().filter(|c| *c != '_').collect();
        assert_eq!(before, kept);
        let groups = regex.chars().filter(|c| *c == '(').count();
        assert_eq!(pattern.chars().filter(|c| *c == '(').count(), groups);
        assert_eq!(groups + 1, Regex::new(&regex).unwrap().captures_len());
    }
}

#[test]
fn parser_runs_once_more_than_groups_are_renamed() {
    for (pattern, renamed) in [
        ("foo", 0usize),
        (r"^(?P<0>\d+)$", 1),
        (r"^(?P<0>\d+): (?P<1>\d+)$", 2),
        (r"(?P<0>a)(?P<1>b)(?P<2>c)(?P<3>d)(?P<4>e)", 5),
    ] {
        let mut regex = String::from(pattern);
        let out = repair_group_names(&mut regex);
        assert_eq!(renamed, out.renamed);
        assert_eq!(renamed + 1, out.attempts);
    }
}

#[test]
fn group_names_are_prefixed_from_the_left() {
    assert_eq!(r"(?P<__1>a)(?P<__0>b)", normalized(r"(?P<1>a)(?P<0>b)"));
    assert_eq!(r"(?P<__42abc>a)", normalized(r"(?P<42abc>a)"));
}

#[test]
fn offsets_are_byte_offsets() {
    assert_eq!("é(?P<__0>x)ü", normalized("é(?P<0>x)ü"));
    assert_eq!("日本語 (?P<__1>.+) 語", normalized("日本語 (?P<1>.+) 語"));
}

#[test]
fn other_failures_are_handed_back_at_once() {
    let mut regex = String::from(r"^(?P<id>\d+$");
    let out = repair_group_names(&mut regex);
    assert_eq!(r"^(?P<id>\d+$", regex);
    assert_eq!(1, out.attempts);
    assert_eq!(0, out.renamed);
    let error = out.failure.unwrap();
    assert_eq!(PatternErrorKind::Other, error.kind);
    assert_eq!(1, error.start);
    assert!(error.message.contains("unclosed group"));
}

#[test]
fn failure_after_a_repair_keeps_the_repair() {
    let mut regex = String::from(r"(?P<0>a)(b");
    let out = repair_group_names(&mut regex);
    assert_eq!(r"(?P<__0>a)(b", regex);
    assert_eq!(2, out.attempts);
    assert_eq!(1, out.renamed);
    assert_eq!(PatternErrorKind::Other, out.failure.unwrap().kind);
}

#[test]
fn empty_group_name_is_no_invalid_name() {
    let error = failure(r"(?P<>a)");
    assert_eq!(PatternErrorKind::Other, error.kind);
    assert!(error.message.contains("empty capture group name"));
}

#[test]
fn name_that_prefixing_cannot_repair_ends_the_repair() {
    let mut regex = String::from(r"(?P<a-b>x)");
    let out = repair_group_names(&mut regex);
    let error = out.failure.unwrap();
    assert_eq!(PatternErrorKind::GroupNameInvalid, error.kind);
    assert_eq!(r"(?P<a__-b>x)", regex);
    assert_eq!(7, error.start);
    assert_eq!(1, out.renamed);
    assert_eq!(2, out.attempts);
    assert!(error.message.contains("invalid capture group character"));
}

#[test]
fn error_of_replace_is_the_failure_of_the_repair() {
    let error = failure(r"(?P<0>a)[");
    assert_eq!(PatternErrorKind::Other, error.kind);
    assert_eq!(10, error.start);
}
