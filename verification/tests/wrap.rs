use devpet::wrap::wrap_text;

#[test]
fn wraps_descriptions_at_the_gallery_width() {
    assert_eq!(
        wrap_text("A compact guardian organized around a large luminous Core.", 47),
        vec!["A compact guardian organized around a large", "luminous Core."]
    );
}

#[test]
fn collapses_white_space_between_words() {
    assert_eq!(wrap_text("  hello   world  ", 5), vec!["hello", "world"]);
    assert_eq!(wrap_text("a b c", 3), vec!["a b", "c"]);
    assert!(wrap_text("", 10).is_empty());
    assert!(wrap_text(" \t\n ", 10).is_empty());
}

#[test]
fn long_first_word_flushes_an_empty_line() {
    assert_eq!(
        wrap_text("supercalifragilistic is long", 10),
        vec!["", "supercalifragilistic", "is long"]
    );
}

#[test]
fn widths_count_utf8_bytes() {
    assert_eq!(wrap_text("h\u{e9}llo w\u{f6}rld", 11), vec!["h\u{e9}llo", "w\u{f6}rld"]);
    assert_eq!(wrap_text("hello world", 11), vec!["hello world"]);
}

#[test]
fn lines_fit_unless_a_single_word_is_too_long() {
    let text = "Round mascot silhouette with expressive eyes and a state Core.";
    for max in 0..40 {
        for line in wrap_text(text, max) {
            assert!(line.len() <= max || !line.contains(' '), "{max}: {line:?}");
        }
    }
}
