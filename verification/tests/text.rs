use processbot::text::contains_ref;
use processbot::text::contains_text;

#[test]
fn contains_text_finds_whole_strings_only() {
    let list = vec!["ann".to_string(), "bob".to_string(), "".to_string()];
    assert!(contains_text(&list, "ann"));
    assert!(contains_text(&list, "bob"));
    assert!(contains_text(&list, ""));
    assert!(!contains_text(&list, "an"));
    assert!(!contains_text(&list, "Ann"));
    assert!(!contains_text(&list, "ann "));
    assert!(!contains_text(&vec![], "ann"));
    assert!(!contains_text(&vec![], ""));
}

#[test]
fn contains_ref_finds_whole_strings_only() {
    let ann = "ann".to_string();
    let bob = "bob".to_string();
    let list = vec![&ann, &bob];
    assert!(contains_ref(&list, "ann"));
    assert!(contains_ref(&list, "bob"));
    assert!(!contains_ref(&list, "cy"));
    assert!(!contains_ref(&list, ""));
    assert!(!contains_ref(&vec![], "ann"));
}
