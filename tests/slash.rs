use std::borrow::Cow;

use slash_formatter::{
    add_end_slash, add_end_slash_in_place, add_start_slash, add_start_slash_in_place,
    concat_literals_with_slash, concat_with_slash, concat_with_slash_in_place, delete_end_slash,
    delete_end_slash_in_place, delete_start_slash, delete_start_slash_in_place, join_with_slash,
    join_with_slash_in_place, SLASH,
};

#[test]
fn slash_constant() {
    assert_eq!('/', SLASH);
}

#[test]
fn delete_end_slash_removes_one() {
    assert_eq!("path", delete_end_slash("path/"));
    assert_eq!("path/", delete_end_slash("path//"));
    assert_eq!("path", delete_end_slash("path"));
    assert_eq!("", delete_end_slash(""));
}

#[test]
fn delete_end_slash_keeps_root() {
    assert_eq!("/", delete_end_slash("/"));
    assert_eq!("/", delete_end_slash("//"));
}

#[test]
fn delete_end_slash_in_place_truncates() {
    let mut s = String::from("path/");
    delete_end_slash_in_place(&mut s);
    assert_eq!("path", s);

    let mut s = String::from("/");
    delete_end_slash_in_place(&mut s);
    assert_eq!("/", s);

    let mut s = String::new();
    delete_end_slash_in_place(&mut s);
    assert_eq!("", s);
}

#[test]
fn delete_start_slash_removes_one() {
    assert_eq!("path", delete_start_slash("/path"));
    assert_eq!("/path", delete_start_slash("//path"));
    assert_eq!("path", delete_start_slash("path"));
    assert_eq!("/", delete_start_slash("/"));
    assert_eq!("", delete_start_slash(""));
}

#[test]
fn delete_start_slash_in_place_removes_one() {
    let mut s = String::from("/path");
    delete_start_slash_in_place(&mut s);
    assert_eq!("path", s);

    let mut s = String::from("/");
    delete_start_slash_in_place(&mut s);
    assert_eq!("/", s);
}

#[test]
fn add_start_slash_scenarios() {
    assert_eq!("/path", add_start_slash("path"));
    assert_eq!("/path", add_start_slash("/path"));
    assert_eq!("/", add_start_slash(""));
}

#[test]
fn add_start_slash_in_place_scenarios() {
    let mut s = String::from("path");
    add_start_slash_in_place(&mut s);
    assert_eq!("/path", s);
    add_start_slash_in_place(&mut s);
    assert_eq!("/path", s);
}

#[test]
fn add_end_slash_scenarios() {
    assert_eq!("path/", add_end_slash("path"));
    assert_eq!("path/", add_end_slash("path/"));
    assert_eq!("/", add_end_slash(""));
}

#[test]
fn add_end_slash_in_place_scenarios() {
    let mut s = String::from("path");
    add_end_slash_in_place(&mut s);
    assert_eq!("path/", s);
    add_end_slash_in_place(&mut s);
    assert_eq!("path/", s);
}

#[test]
fn concat_with_slash_scenarios() {
    assert_eq!("path/to", concat_with_slash(String::from("path"), "to/"));
    assert_eq!("path/to", concat_with_slash(String::from("path/"), "to"));
    assert_eq!("path/to", concat_with_slash(String::from("path/"), "/to"));
    assert_eq!("path/to", concat_with_slash(String::from("path"), "to"));
}

#[test]
fn concat_with_slash_keeps_interior_separators() {
    assert_eq!("a//b/c", concat_with_slash(String::from("a//b"), "c"));
    assert_eq!("/", concat_with_slash(String::new(), ""));
    assert_eq!("/a", concat_with_slash(String::new(), "a"));
}

#[test]
fn concat_with_slash_in_place_scenarios() {
    let mut s = String::from("path");
    concat_with_slash_in_place(&mut s, "to/");
    assert_eq!("path/to", s);
}

#[test]
fn join_with_slash_scenario() {
    assert_eq!("path/to/file", join_with_slash("path", &["to/", "/file/"]));
    assert_eq!("path", join_with_slash("path", &[]));
}

#[test]
fn join_with_slash_in_place_scenario() {
    let mut s = String::from("path");
    join_with_slash_in_place(&mut s, &["to/", "/file/"]);
    assert_eq!("path/to/file", s);
}

#[test]
fn concat_literals_with_slash_interleaves() {
    let ten = 10.to_string();
    let b = 'b'.to_string();
    let t = true.to_string();
    assert_eq!(
        "test/10/b/true",
        concat_literals_with_slash("", &["test", &ten, &b, &t], "")
    );
    assert_eq!("<a/b>", concat_literals_with_slash("<", &["a", "b"], ">"));
    assert_eq!("a//b", concat_literals_with_slash("", &["a/", "b"], ""));
    assert_eq!("<>", concat_literals_with_slash("<", &[], ">"));
    assert_eq!("x", concat_literals_with_slash("", &["x"], ""));
}

#[test]
fn delete_slash_borrows_input() {
    let s = "path/";
    let r = delete_end_slash(s);
    assert_eq!(s.as_ptr(), r.as_ptr());
    let s = "/path";
    let r = delete_start_slash(s);
    assert_eq!(s[1..].as_ptr(), r.as_ptr());
}

#[test]
fn add_slash_borrows_when_unchanged() {
    let s = "/path/";
    match add_start_slash(s) {
        Cow::Borrowed(r) => assert_eq!(s.as_ptr(), r.as_ptr()),
        Cow::Owned(_) => panic!("expected a borrowed result"),
    }
    match add_end_slash(s) {
        Cow::Borrowed(r) => assert_eq!(s.as_ptr(), r.as_ptr()),
        Cow::Owned(_) => panic!("expected a borrowed result"),
    }
    assert!(matches!(add_start_slash("path"), Cow::Owned(_)));
    assert!(matches!(add_end_slash("path"), Cow::Owned(_)));
}
