use pokemon_api::path::last_segment;

#[test]
fn last_segment_of_a_plain_path() {
    assert_eq!(last_segment("/pokemon/bulbasaur"), "bulbasaur");
    assert_eq!(last_segment("/pokemon/missingno"), "missingno");
}

#[test]
fn last_segment_behind_a_trailing_slash_is_empty() {
    assert_eq!(last_segment("/pokemon/"), "");
    assert_eq!(last_segment("/"), "");
    assert_eq!(last_segment("a//"), "");
}

#[test]
fn last_segment_without_a_slash_is_the_path() {
    assert_eq!(last_segment(""), "");
    assert_eq!(last_segment("bulbasaur"), "bulbasaur");
}

#[test]
fn last_segment_keeps_what_is_no_slash() {
    assert_eq!(last_segment("/pokemon/mr%2Fmime"), "mr%2Fmime");
    assert_eq!(last_segment("/pokemon/a b?c=d"), "a b?c=d");
    assert_eq!(last_segment("/pok\u{e9}mon/\u{30d4}\u{30ab}\u{30c1}\u{30e5}\u{30a6}"), "\u{30d4}\u{30ab}\u{30c1}\u{30e5}\u{30a6}");
    assert_eq!(last_segment("\\pokemon\\x"), "\\pokemon\\x");
}

#[test]
fn last_segment_agrees_with_split() {
    for path in ["", "/", "a", "/a", "a/", "/a/b", "//", "/a//b/", "x/y/z", "\u{e9}/\u{e8}"] {
        assert_eq!(Some(last_segment(path)), path.split("/").last());
    }
}
