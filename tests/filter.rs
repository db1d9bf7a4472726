use gig_gen::filter::FilterState;
use gig_gen::projection::cursor;

#[test]
fn new_filter_is_empty_and_unchanged() {
    let f = FilterState::new();
    assert_eq!(f.text(), "");
    assert!(!f.just_changed());
}

#[test]
fn append_adds_and_marks_changed() {
    let mut f = FilterState::new();
    f.append('G');
    f.append('o');
    assert_eq!(f.text(), "Go");
    assert!(f.just_changed());
}

#[test]
fn append_then_backspace_restores_text() {
    let mut f = FilterState::new();
    f.append('R');
    assert!(f.take_just_changed());
    f.append('u');
    assert!(f.just_changed());
    f.backspace();
    assert_eq!(f.text(), "R");
    assert!(f.just_changed());
}

#[test]
fn backspace_on_empty_is_noop() {
    let mut f = FilterState::new();
    f.backspace();
    assert_eq!(f.text(), "");
    assert!(!f.just_changed());
}

#[test]
fn backspace_drops_a_whole_character() {
    let mut f = FilterState::new();
    f.append('a');
    f.append('é');
    f.backspace();
    assert_eq!(f.text(), "a");
}

#[test]
fn clear_empties_and_marks_changed() {
    let mut f = FilterState::new();
    f.append('x');
    f.take_just_changed();
    f.clear();
    assert_eq!(f.text(), "");
    assert!(f.just_changed());
}

#[test]
fn clear_on_empty_keeps_flag() {
    let mut f = FilterState::new();
    f.clear();
    assert!(!f.just_changed());
}

#[test]
fn take_just_changed_consumes_flag() {
    let mut f = FilterState::new();
    f.append('x');
    assert!(f.take_just_changed());
    assert!(!f.take_just_changed());
    assert_eq!(f.text(), "x");
}

#[test]
fn cursor_resets_after_filter_change() {
    assert_eq!(cursor(true, Some(2), 5), None);
}

#[test]
fn cursor_keeps_previous_row() {
    assert_eq!(cursor(false, Some(2), 5), Some(2));
    assert_eq!(cursor(false, None, 5), None);
}

#[test]
fn cursor_is_clamped_to_list() {
    assert_eq!(cursor(false, Some(7), 3), Some(2));
    assert_eq!(cursor(false, Some(0), 0), None);
}
