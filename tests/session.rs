use gig_gen::save::{
    chosen_mode, decide_save, open_flags, outcome_message, Choice, OpenFlags, SaveDecision,
    SaveMode, OUTPUT_FILE_NAME,
};
use gig_gen::session::{SaveAction, Session, WriteFailure};

fn strings(v: &[&str]) -> Vec<String> {
    v.iter().map(|s| s.to_string()).collect()
}

#[test]
fn decision_table() {
    assert_eq!(decide_save(false, false), SaveDecision::NothingToSave);
    assert_eq!(decide_save(false, true), SaveDecision::NothingToSave);
    assert_eq!(decide_save(true, false), SaveDecision::Create);
    assert_eq!(decide_save(true, true), SaveDecision::AskOverwrite);
}

#[test]
fn open_flags_per_mode() {
    assert_eq!(
        open_flags(SaveMode::Create),
        OpenFlags { create_new: true, truncate: false, append: false }
    );
    assert_eq!(
        open_flags(SaveMode::Overwrite),
        OpenFlags { create_new: false, truncate: true, append: false }
    );
    assert_eq!(
        open_flags(SaveMode::Append),
        OpenFlags { create_new: false, truncate: false, append: true }
    );
}

#[test]
fn choices_map_to_modes() {
    assert_eq!(chosen_mode(Choice::Overwrite), Some(SaveMode::Overwrite));
    assert_eq!(chosen_mode(Choice::Append), Some(SaveMode::Append));
    assert_eq!(chosen_mode(Choice::Cancel), None);
}

#[test]
fn outcome_messages() {
    assert_eq!(outcome_message(SaveMode::Create), "Created new .gitignore file.");
    assert_eq!(
        outcome_message(SaveMode::Overwrite),
        "Replaced contents of existing .gitignore file."
    );
    assert_eq!(
        outcome_message(SaveMode::Append),
        "Appended templates to existing .gitignore file."
    );
    assert_eq!(OUTPUT_FILE_NAME, ".gitignore");
}

#[test]
fn save_without_selection_warns() {
    let s = Session::new(strings(&["Rust", "Go"]));
    let expected = SaveAction::Warn("Select one or more templates and try again.".to_string());
    assert_eq!(s.save_requested(), expected);
    assert_eq!(s.file_checked(true), expected);
    assert_eq!(s.file_checked(false), expected);
    assert!(s.final_message.is_none());
}

#[test]
fn save_without_file_creates() {
    let mut s = Session::new(strings(&["Rust", "Go"]));
    s.select("Go");
    assert_eq!(s.save_requested(), SaveAction::CheckFile);
    assert_eq!(s.file_checked(false), SaveAction::Fetch(SaveMode::Create, strings(&["Go"])));
}

#[test]
fn append_to_existing_file() {
    let mut s = Session::new(strings(&["Go", "Rust"]));
    s.select("Rust");
    assert_eq!(s.save_requested(), SaveAction::CheckFile);
    assert_eq!(s.file_checked(true), SaveAction::AskChoice);
    let fetch = s.choice_made(Choice::Append);
    assert_eq!(fetch, SaveAction::Fetch(SaveMode::Append, strings(&["Rust"])));
    let write = s.body_fetched(SaveMode::Append, Ok("RUSTBODY".to_string()));
    assert_eq!(write, SaveAction::Write(SaveMode::Append, "RUSTBODY".to_string()));
    assert!(open_flags(SaveMode::Append).append);
    let done = s.write_finished(SaveMode::Append, Ok(()));
    assert_eq!(
        done,
        SaveAction::Finish("Appended templates to existing .gitignore file.".to_string())
    );
    assert_eq!(
        s.final_message.as_deref(),
        Some("Appended templates to existing .gitignore file.")
    );
}

#[test]
fn overwrite_choice_fetches_for_overwrite() {
    let mut s = Session::new(strings(&["Go", "Rust"]));
    s.select("Go");
    s.select("Rust");
    assert_eq!(
        s.choice_made(Choice::Overwrite),
        SaveAction::Fetch(SaveMode::Overwrite, strings(&["Go", "Rust"]))
    );
}

#[test]
fn cancel_does_nothing() {
    let mut s = Session::new(strings(&["Go"]));
    s.select("Go");
    assert_eq!(s.choice_made(Choice::Cancel), SaveAction::Idle);
    assert!(s.final_message.is_none());
}

#[test]
fn fetch_failure_is_reported() {
    let s = Session::new(strings(&["Go"]));
    assert_eq!(
        s.body_fetched(SaveMode::Create, Err("timeout".to_string())),
        SaveAction::Report("Error fetching .gitignore data. [timeout]".to_string())
    );
}

#[test]
fn open_failure_keeps_session() {
    let mut s = Session::new(strings(&["Go"]));
    s.select("Go");
    let r = s.write_finished(SaveMode::Create, Err(WriteFailure::Open("exists".to_string())));
    assert_eq!(r, SaveAction::Report("Error opening .gitignore file. [exists]".to_string()));
    assert!(s.final_message.is_none());
}

#[test]
fn write_failure_keeps_session() {
    let mut s = Session::new(strings(&["Go"]));
    let r = s.write_finished(SaveMode::Overwrite, Err(WriteFailure::Write("full".to_string())));
    assert_eq!(r, SaveAction::Report("Error writing .gitignore file. [full]".to_string()));
    assert!(s.final_message.is_none());
}

#[test]
fn created_outcome_is_kept() {
    let mut s = Session::new(strings(&["Go"]));
    let r = s.write_finished(SaveMode::Create, Ok(()));
    assert_eq!(r, SaveAction::Finish("Created new .gitignore file.".to_string()));
    assert_eq!(s.final_message.as_deref(), Some("Created new .gitignore file."));
}

#[test]
fn typing_filters_and_render_consumes_flag() {
    let mut s = Session::new(strings(&["Go", "Godot", "Gradle"]));
    assert!(s.type_char('G'));
    assert!(s.type_char('o'));
    let screen = s.render(Some(1));
    assert_eq!(screen.filter_line, " Go");
    assert_eq!(screen.available, strings(&["Go", "Godot"]));
    assert!(screen.selected.is_empty());
    assert_eq!(screen.cursor, None);
    assert!(!s.filter.just_changed());
    let again = s.render(Some(1));
    assert_eq!(again.cursor, Some(1));
}

#[test]
fn selection_keeps_cursor_policy() {
    let mut s = Session::new(strings(&["Go", "Godot", "Gradle"]));
    s.render(None);
    s.select("Go");
    let screen = s.render(Some(2));
    assert_eq!(screen.available, strings(&["Godot", "Gradle"]));
    assert_eq!(screen.selected, strings(&["Go"]));
    assert_eq!(screen.cursor, Some(1));
}

#[test]
fn control_characters_are_not_typed() {
    let mut s = Session::new(strings(&["Go"]));
    assert!(!s.type_char('\t'));
    assert!(!s.type_char('é'));
    assert_eq!(s.filter.text(), "");
    assert!(s.type_char('~'));
    assert!(s.type_char(' '));
    assert_eq!(s.filter.text(), "~ ");
}

#[test]
fn erase_and_clear_through_session() {
    let mut s = Session::new(strings(&["Go"]));
    s.type_char('a');
    s.type_char('b');
    s.erase_char();
    assert_eq!(s.filter.text(), "a");
    s.clear_filter();
    assert_eq!(s.filter.text(), "");
}
