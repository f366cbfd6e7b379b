use quickcount::qc_editor::QCEditor;
use quickcount::textstat::calculate_stats;

#[test]
fn fresh_editor_is_empty() {
    let e = QCEditor::default();
    assert_eq!(e.content, "");
}

#[test]
fn add_new_content_appends() {
    let mut e = QCEditor::default();
    e.add_new_content(String::from("Hello "));
    e.add_new_content(String::from("world."));
    assert_eq!(e.content, "Hello world.");
}

#[test]
fn editor_content_feeds_the_engine() {
    let mut e = QCEditor::default();
    e.add_new_content(String::from("One! Two?"));
    let r = calculate_stats(&e.content);
    assert_eq!(r.word_count, 2);
    assert_eq!(r.sentence_count, 2);
}
