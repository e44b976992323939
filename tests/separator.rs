use slash_formatter::{
    add_end, add_end_in_place, add_start, concat_literals, concat_with, delete_end,
    delete_end_in_place, delete_start, delete_start_in_place, join_with, join_with_in_place,
};

#[test]
fn delete_end_then_add_end_collapses_one_separator() {
    for s in ["path", "path/", "/", "", "a/b"] {
        let added = add_end(s, '/');
        let d = delete_end(&added, '/');
        assert!(!d.ends_with('/') || d == "/");
        assert_eq!(d, delete_end(d, '/'));
    }
    assert_eq!("path", delete_end(&add_end("path", '/'), '/'));
    assert_eq!("path", delete_end(&add_end("path/", '/'), '/'));
}

#[test]
fn delete_end_twice_differs_after_two_separators() {
    let once = delete_end("a//", '/');
    assert_eq!("a/", once);
    assert_eq!("a", delete_end(once, '/'));
}

#[test]
fn add_end_is_idempotent() {
    for s in ["", "path", "path/", "/", "p//"] {
        let once = add_end(s, '/').into_owned();
        let twice = add_end(&once, '/').into_owned();
        assert_eq!(once, twice);
    }
}

#[test]
fn lone_separator_is_kept() {
    for sep in ['/', '\\', ':'] {
        let root = sep.to_string();
        assert_eq!(root, delete_end(&root, sep));
        assert_eq!(root, delete_start(&root, sep));
        let mut s = root.clone();
        delete_end_in_place(&mut s, sep);
        delete_start_in_place(&mut s, sep);
        assert_eq!(root, s);
    }
}

#[test]
fn add_then_delete_end_equals_delete_end() {
    for s in ["path", "path/", "/", "a//", "x"] {
        assert_eq!(delete_end(s, '/'), delete_end(&add_end(s, '/'), '/'));
    }
    assert_eq!("", delete_end("", '/'));
    assert_eq!("/", delete_end(&add_end("", '/'), '/'));
}

#[test]
fn any_character_can_separate() {
    assert_eq!("a:b", concat_with(String::from("a:"), ":b", ':'));
    assert_eq!("x→y", concat_with(String::from("x"), "y", '→'));
    assert_eq!("→", delete_end("→", '→'));
    assert_eq!("→a", add_start("a", '→'));
    let mut s = String::from("é");
    add_end_in_place(&mut s, '→');
    assert_eq!("é→", s);
    delete_end_in_place(&mut s, '→');
    assert_eq!("é", s);
}

#[test]
fn join_with_folds_left() {
    assert_eq!("path/to/file", join_with("path", &["to/", "/file/"], '/'));
    assert_eq!("a/b", join_with("a/", &["", "b"], '/'));
    let mut s = String::from("/");
    join_with_in_place(&mut s, &["/x"], '/');
    assert_eq!("/x", s);
}

#[test]
fn concat_literals_keeps_parts_verbatim() {
    assert_eq!("(1,2)", concat_literals("(", &["1", "2"], ")", ','));
    assert_eq!("pre/a///b/suf", concat_literals("pre/", &["a/", "/b"], "/suf", '/'));
}
