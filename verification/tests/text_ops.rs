use aur_fetch::{first_two_lines, path_join, trim};

#[test]
fn trim_strips_both_ends() {
    assert_eq!(trim("  hello world \n"), "hello world");
    assert_eq!(trim("\r\n\tfetched\n"), "fetched");
}

#[test]
fn trim_of_all_whitespace_is_empty() {
    assert_eq!(trim("   \n\t\r  "), "");
    assert_eq!(trim(""), "");
}

#[test]
fn trim_keeps_inner_whitespace() {
    assert_eq!(trim(" a b  c "), "a b  c");
}

#[test]
fn first_two_lines_of_two_line_output() {
    let (a, b) = first_two_lines("abc123\ndef456\n");
    assert_eq!(a, "abc123");
    assert_eq!(b, "def456");
}

#[test]
fn first_two_lines_without_any_newline() {
    let (a, b) = first_two_lines("only");
    assert_eq!(a, "only");
    assert_eq!(b, "");
}

#[test]
fn first_two_lines_ignores_third_line() {
    let (a, b) = first_two_lines("x\ny\nz\n");
    assert_eq!(a, "x");
    assert_eq!(b, "y");
}

#[test]
fn path_join_inserts_one_separator() {
    assert_eq!(path_join("/cache/clone", "pkg-a"), "/cache/clone/pkg-a");
    assert_eq!(path_join("", "pkg"), "/pkg");
}
