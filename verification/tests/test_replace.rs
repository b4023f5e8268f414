use adhoc_derive::regex::replace_numbered_capture_groups;

#[test]
fn no_capture_groups() {
    let mut regex = String::from("foo");
    let before = regex.clone();
    replace_numbered_capture_groups(&mut regex).unwrap();
    assert_eq!(before, regex);
}

#[test]
fn named_capture_group_not_numbered() {
    let mut regex = String::from(r"^(?P<id>\d+)$");
    let before = regex.clone();
    replace_numbered_capture_groups(&mut regex).unwrap();
    assert_eq!(before, regex);
}

#[test]
fn named_capture_group_numbered() {
    let mut regex = String::from(r"^(?P<0>\d+)$");
    replace_numbered_capture_groups(&mut regex).unwrap();
    assert_eq!(r"^(?P<__0>\d+)$", regex);
}

#[test]
fn named_capture_groups_multiple_numbered() {
    let mut regex = String::from(r"^(?P<0>\d+): (?P<1>\d+)$");
    replace_numbered_capture_groups(&mut regex).unwrap();
    assert_eq!(r"^(?P<__0>\d+): (?P<__1>\d+)$", regex);
}

#[test]
fn named_capture_groups_mixed() {
    let mut regex = String::from(r"^(?P<0>\d+): (?P<a>\d+)$");
    replace_numbered_capture_groups(&mut regex).unwrap();
    assert_eq!(r"^(?P<__0>\d+): (?P<a>\d+)$", regex);
}

#[test]
fn named_capture_groups_nested() {
    let mut regex = String::from(r"^(?P<2>(?P<0>\d+): (?P<a>\d+))$");
    replace_numbered_capture_groups(&mut regex).unwrap();
    assert_eq!(r"^(?P<__2>(?P<__0>\d+): (?P<a>\d+))$", regex);
}

#[test]
fn named_capture_groups_fake_group() {
    let mut regex = String::from(r"^(?P<2>\(?P<0>\d+\): (?P<a>\d+))$");
    replace_numbered_capture_groups(&mut regex).unwrap();
    assert_eq!(r"^(?P<__2>\(?P<0>\d+\): (?P<a>\d+))$", regex);
}
