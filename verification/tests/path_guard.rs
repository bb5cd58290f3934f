use tunnel_share::path_guard::{validate, PathError};

#[test]
fn accepts_plain_names_unchanged() {
    for name in ["a", "a.txt", "report.final.pdf", ".", ".hidden", "with space", "naïve.txt", "a\\b"] {
        let accepted = validate(name).expect(name);
        assert_eq!(accepted.as_str(), name);
    }
}

#[test]
fn rejects_empty_name() {
    assert_eq!(validate("").unwrap_err(), PathError::Empty);
}

#[test]
fn rejects_parent_marker_anywhere() {
    for name in ["..", "..a", "a..", "a..b", "...", "x...y"] {
        assert_eq!(validate(name).unwrap_err(), PathError::Unsafe, "{}", name);
    }
}

#[test]
fn rejects_separator_anywhere() {
    for name in ["/", "a/b", "/a", "a/", "dir/file.txt"] {
        assert_eq!(validate(name).unwrap_err(), PathError::Unsafe, "{}", name);
    }
}

#[test]
fn rejects_traversal() {
    assert_eq!(validate("../etc/passwd").unwrap_err(), PathError::Unsafe);
}

#[test]
fn single_dots_apart_are_accepted() {
    assert!(validate("a.b.c").is_ok());
    assert!(validate(".a.").is_ok());
}

#[test]
fn clone_keeps_the_name() {
    let name = validate("file.bin").unwrap();
    assert_eq!(name.clone(), name);
    assert_eq!(name.clone().as_str(), "file.bin");
}
