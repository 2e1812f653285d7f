use mdnotes::editor::Document;
use mdnotes::ops::change_title;
use mdnotes::ops::copy_into_workspace;
use mdnotes::ops::open_file;
use mdnotes::ops::save_file;

#[test]
fn saving_writes_the_whole_body_to_the_title_file() {
    let req = save_file(
        String::from("hello world"),
        String::from("T"),
        String::from("dir"),
    );
    assert_eq!(req.path, "dir/T.md");
    assert_eq!(req.contents, "hello world");
}

#[test]
fn a_title_change_returns_the_new_filename_even_for_a_missing_file() {
    let (new_name, req) = change_title(String::from("no-such-file.md"), String::from("T"));
    assert_eq!(new_name, "T.md");
    assert_eq!(req.from, "no-such-file.md");
    assert_eq!(req.to, "T.md");
}

#[test]
fn a_picked_file_is_copied_into_the_workspace_under_its_own_name() {
    let req = copy_into_workspace(String::from("elsewhere/notes.md"), "ws", "notes.md");
    assert_eq!(req.from, "elsewhere/notes.md");
    assert_eq!(req.to, "ws/notes.md");
}

#[test]
fn opening_a_file_fills_title_body_and_previous_name() {
    let data = open_file(
        String::from("notes.md"),
        String::from("body text"),
        String::from("ws"),
    );
    assert_eq!(data.new_body_text, "body text");
    assert_eq!(data.new_title_text_short, "notes");
    assert_eq!(data.new_old_title_text_short, "notes.md");
    assert_eq!(data.new_working_dir, "ws");
}

#[test]
fn an_unreadable_file_opens_with_an_empty_body() {
    let data = open_file(String::from("broken.md"), String::new(), String::from("ws"));
    assert_eq!(data.new_body_text, "");
    assert_eq!(data.new_title_text_short, "broken");
}

#[test]
fn a_fresh_document_is_untitled() {
    let doc = Document::default();
    assert_eq!(doc.body_text, "");
    assert_eq!(doc.title_text, "untitled");
    assert_eq!(doc.old_name, "untitled.md");
}

#[test]
fn editing_the_title_renames_the_persisted_file() {
    let mut doc = Document::default();
    doc.title_text = String::from("plans");
    let req = doc.on_title_changed();
    assert_eq!(req.from, "untitled.md");
    assert_eq!(req.to, "plans.md");
    assert_eq!(doc.old_name, "plans.md");
    assert_eq!(doc.title_text, "plans");
}

#[test]
fn editing_the_body_saves_under_the_current_title() {
    let mut doc = Document::default();
    doc.title_text = String::from("plans");
    doc.body_text = String::from("- one\n- two\n");
    let req = doc.on_body_changed("ws");
    assert_eq!(req.path, "ws/plans.md");
    assert_eq!(req.contents, "- one\n- two\n");
}

#[test]
fn a_load_overwrites_the_document_and_hands_back_the_directory() {
    let mut doc = Document::default();
    let data = open_file(
        String::from("notes.md"),
        String::from("contents"),
        String::from("root/sub"),
    );
    let dir = doc.apply_load(data);
    assert_eq!(dir, "root/sub");
    assert_eq!(doc.body_text, "contents");
    assert_eq!(doc.title_text, "notes");
    assert_eq!(doc.old_name, "notes.md");
}

#[test]
fn saving_then_renaming_keeps_the_markdown_suffix() {
    let mut doc = Document::default();
    doc.title_text = String::from("a");
    let first = doc.on_title_changed();
    assert_eq!(first.to, "a.md");
    doc.title_text = String::from("ab");
    let second = doc.on_title_changed();
    assert_eq!(second.from, "a.md");
    assert_eq!(second.to, "ab.md");
}
