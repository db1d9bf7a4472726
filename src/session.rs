use vstd::prelude::*;
use vstd::string::StringExecFns;

use crate::filter::{FilterState, FilterView, appended, backspaced, cleared};
use crate::projection::{available, available_names, cursor, cursor_row};
use crate::save::{
    Choice,
    SaveDecision,
    SaveMode,
    chosen_mode,
    decide_save,
    message_with_cause,
    nothing_to_save_message,
    nothing_to_save_text,
    outcome_message,
    outcome_text,
    save_decision,
    with_cause,
};
use crate::template::{Entry, Templates, flagged, names_of, texts, with_flag};

verus! {

/// The characters that typing adds to the filter: printable ASCII.
pub open spec fn is_printable(c: char) -> bool {
    ' ' <= c <= '~'
}

/// Whether some entry of `c` is selected.
pub open spec fn has_selection(c: Seq<Entry>) -> bool {
    exists|k: int| 0 <= k < c.len() && #[trigger] c[k].1
}

/// What the screen shows after a redraw.
#[derive(Clone, Debug, PartialEq, Eq)]
pub struct Screen {
    /// The filter text, after one space.
    pub filter_line: String,
    /// Names of the unselected templates that pass the filter.
    pub available: Vec<String>,
    /// Names of the selected templates.
    pub selected: Vec<String>,
    /// The row of `available` to highlight, if any.
    pub cursor: Option<usize>,
}

/// Why writing the destination file failed, with the cause in words.
#[derive(Clone, Debug, PartialEq, Eq)]
pub enum WriteFailure {
    Open(String),
    Write(String),
}

/// The next thing the interface has to do for a save.
#[derive(Clone, Debug, PartialEq, Eq)]
pub enum SaveAction {
    /// Show this warning; nothing was fetched or written.
    Warn(String),
    /// Find out whether the destination file exists, and report it.
    CheckFile,
    /// Ask whether to overwrite, append, or cancel.
    AskChoice,
    /// Fetch the merged body of these templates, then report it.
    Fetch(SaveMode, Vec<String>),
    /// Open the destination with the flags of the mode and write this body.
    Write(SaveMode, String),
    /// Show this error; the session goes on.
    Report(String),
    /// The file is written: end the session with this message.
    Finish(String),
    /// Nothing more to do.
    Idle,
}

/// The state of one interactive session: the catalog, the filter, and the
/// message left for when the session ends.
#[derive(Clone, Debug, Default)]
pub struct Session {
    pub templates: Templates,
    pub filter: FilterState,
    pub final_message: Option<String>,
}

impl Session {
    /// A session over `names`, none selected and no filter.
    pub fn new(names: Vec<String>) -> (r: Session)
        ensures
            r.templates@ == names@.map_values(|n: String| (n@, false)),
            r.filter@ == (Seq::<char>::empty(), false),
            r.final_message is None,
    {
        let mut templates = Templates::new();
        templates.set_list(names);
        Session { templates, filter: FilterState::new(), final_message: None }
    }

    /// A key press with a character: printable ones are added to the filter,
    /// others are left alone. Says whether the key was taken.
    pub fn type_char(&mut self, c: char) -> (r: bool)
        ensures
            r == is_printable(c),
            final(self).filter@ == if r {
                appended(old(self).filter@, c)
            } else {
                old(self).filter@
            },
            final(self).templates@ == old(self).templates@,
            final(self).final_message == old(self).final_message,
    {
        if ' ' <= c && c <= '~' {
            self.filter.append(c);
            true
        } else {
            false
        }
    }

    pub fn erase_char(&mut self)
        ensures
            final(self).filter@ == backspaced(old(self).filter@),
            final(self).templates@ == old(self).templates@,
            final(self).final_message == old(self).final_message,
    {
        self.filter.backspace();
    }

    pub fn clear_filter(&mut self)
        ensures
            final(self).filter@ == cleared(old(self).filter@),
            final(self).templates@ == old(self).templates@,
            final(self).final_message == old(self).final_message,
    {
        self.filter.clear();
    }

    /// Picks a template from the available list; the filter is untouched.
    pub fn select(&mut self, name: &str)
        ensures
            final(self).templates@ == flagged(old(self).templates@, name@, true),
            final(self).filter@ == old(self).filter@,
            final(self).final_message == old(self).final_message,
    {
        self.templates.select_template(name);
    }

    /// Puts a template back into the available list; the filter is untouched.
    pub fn unselect(&mut self, name: &str)
        ensures
            final(self).templates@ == flagged(old(self).templates@, name@, false),
            final(self).filter@ == old(self).filter@,
            final(self).final_message == old(self).final_message,
    {
        self.templates.unselect_template(name);
    }

    /// The display lists for the current state. `previous` is the row that
    /// was highlighted before; the change flag of the filter is consumed.
    pub fn render(&mut self, previous: Option<usize>) -> (r: Screen)
        ensures
            r.filter_line@ == " "@ + old(self).filter@.0,
            texts(r.available@) == names_of(available(old(self).templates@, old(self).filter@.0)),
            texts(r.selected@) == names_of(with_flag(old(self).templates@, true)),
            r.cursor == cursor_row(old(self).filter@.1, previous, r.available@.len()),
            final(self).filter@ == (old(self).filter@.0, false),
            final(self).templates@ == old(self).templates@,
            final(self).final_message == old(self).final_message,
    {
        let mut filter_line = String::from_str(" ");
        filter_line.append(self.filter.text());
        let available = available_names(&self.templates, self.filter.text());
        let selected = self.templates.selected_template_names();
        let just_changed = self.filter.take_just_changed();
        let row = cursor(just_changed, previous, available.len());
        Screen { filter_line, available, selected, cursor: row }
    }

    /// The first step of a save: with nothing selected, a warning and no
    /// file access; else a look at the destination file.
    pub fn save_requested(&self) -> (r: SaveAction)
        ensures
            !has_selection(self.templates@) ==> r is Warn && r->Warn_0@ == nothing_to_save_text(),
            has_selection(self.templates@) ==> r is CheckFile,
    {
        if self.templates.any_selected() {
            SaveAction::CheckFile
        } else {
            SaveAction::Warn(nothing_to_save_message())
        }
    }

    /// The step after the destination file was looked at.
    pub fn file_checked(&self, file_exists: bool) -> (r: SaveAction)
        ensures
            match save_decision(has_selection(self.templates@), file_exists) {
                SaveDecision::NothingToSave => r is Warn && r->Warn_0@ == nothing_to_save_text(),
                SaveDecision::Create => r is Fetch && r->Fetch_0 == SaveMode::Create && texts(
                    r->Fetch_1@,
                ) == names_of(with_flag(self.templates@, true)),
                SaveDecision::AskOverwrite => r is AskChoice,
            },
    {
        match decide_save(self.templates.any_selected(), file_exists) {
            SaveDecision::NothingToSave => SaveAction::Warn(nothing_to_save_message()),
            SaveDecision::Create => SaveAction::Fetch(
                SaveMode::Create,
                self.templates.selected_template_names(),
            ),
            SaveDecision::AskOverwrite => SaveAction::AskChoice,
        }
    }

    /// The step after the user answered the overwrite question.
    pub fn choice_made(&self, choice: Choice) -> (r: SaveAction)
        ensures
            choice == Choice::Cancel ==> r is Idle,
            choice == Choice::Overwrite ==> r is Fetch && r->Fetch_0 == SaveMode::Overwrite,
            choice == Choice::Append ==> r is Fetch && r->Fetch_0 == SaveMode::Append,
            r is Fetch ==> texts(r->Fetch_1@) == names_of(with_flag(self.templates@, true)),
    {
        match chosen_mode(choice) {
            Some(mode) => SaveAction::Fetch(mode, self.templates.selected_template_names()),
            None => SaveAction::Idle,
        }
    }

    /// The step after the merged body was fetched, or the fetch failed.
    pub fn body_fetched(&self, mode: SaveMode, fetched: Result<String, String>) -> (r: SaveAction)
        ensures
            fetched is Ok ==> r is Write && r->Write_0 == mode && r->Write_1 == fetched->Ok_0,
            fetched is Err ==> r is Report && r->Report_0@ == with_cause(
                "Error fetching .gitignore data. "@,
                fetched->Err_0@,
            ),
    {
        match fetched {
            Ok(body) => SaveAction::Write(mode, body),
            Err(cause) => SaveAction::Report(
                message_with_cause("Error fetching .gitignore data. ", cause.as_str()),
            ),
        }
    }

    /// The last step: the outcome of writing the file. On success the
    /// session keeps the outcome message and ends; on failure it goes on.
    pub fn write_finished(&mut self, mode: SaveMode, written: Result<(), WriteFailure>) -> (r:
        SaveAction)
        ensures
            written is Ok ==> r is Finish && r->Finish_0@ == outcome_text(mode)
                && final(self).final_message is Some && final(self).final_message->Some_0@
                == outcome_text(mode),
            written is Err ==> final(self).final_message == old(self).final_message,
            written matches Err(WriteFailure::Open(cause)) ==> r is Report && r->Report_0@
                == with_cause("Error opening .gitignore file. "@, cause@),
            written matches Err(WriteFailure::Write(cause)) ==> r is Report && r->Report_0@
                == with_cause("Error writing .gitignore file. "@, cause@),
            final(self).templates@ == old(self).templates@,
            final(self).filter@ == old(self).filter@,
    {
        match written {
            Ok(()) => {
                self.final_message = Some(outcome_message(mode));
                SaveAction::Finish(outcome_message(mode))
            },
            Err(WriteFailure::Open(cause)) => SaveAction::Report(
                message_with_cause("Error opening .gitignore file. ", cause.as_str()),
            ),
            Err(WriteFailure::Write(cause)) => SaveAction::Report(
                message_with_cause("Error writing .gitignore file. ", cause.as_str()),
            ),
        }
    }
}

} // verus!
