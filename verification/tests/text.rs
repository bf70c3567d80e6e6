use nts::text::{clip_title, first_chars, join_parts, split_words, title_copy};

#[test]
fn a_title_has_single_blanks() {
    assert_eq!(title_copy("  A\t show \n with\u{3000}gaps  "), "A show with gaps");
    assert_eq!(title_copy(" \t\n"), "");
    assert_eq!(title_copy("One"), "One");
}

#[test]
fn a_title_is_cut_at_its_limit() {
    let exact = "é".repeat(72);
    assert_eq!(title_copy(&exact), exact);
    let longer = "é".repeat(73);
    let cut = title_copy(&longer);
    assert_eq!(cut.chars().count(), 72);
    assert_eq!(cut, format!("{}…", "é".repeat(71)));
}

#[test]
fn words_and_parts() {
    assert_eq!(split_words(" a  bc "), vec!["a".to_owned(), "bc".to_owned()]);
    assert!(split_words("").is_empty());
    let parts = vec!["a".to_owned(), String::new(), "c".to_owned()];
    assert_eq!(join_parts(&parts, ", "), "a, , c");
    assert_eq!(join_parts(&Vec::new(), ", "), "");
    assert_eq!(first_chars("žluť", 2), "žl");
    assert_eq!(clip_title("short".to_owned()), "short");
}

#[test]
fn a_title_stays_a_title() {
    let long = "many words  of a very long title ".repeat(9);
    let cut_at_a_blank = format!("{} {}", "a".repeat(70), "b".repeat(70));
    for value in ["", "  ", "a \t b", "…", long.as_str(), cut_at_a_blank.as_str()] {
        let once = title_copy(value);
        assert_eq!(title_copy(&once), once);
    }
    assert_eq!(title_copy(&cut_at_a_blank), format!("{} …", "a".repeat(70)));
}
