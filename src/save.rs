use vstd::prelude::*;
use vstd::string::StringExecFns;

verus! {

/// The file that a save writes, relative to the working directory.
pub const OUTPUT_FILE_NAME: &'static str = ".gitignore";

/// What a save request leads to, before any file is touched.
#[derive(Clone, Copy, Debug, PartialEq, Eq, Structural)]
pub enum SaveDecision {
    /// Nothing is selected: warn, and do nothing else.
    NothingToSave,
    /// No file is there yet: create it.
    Create,
    /// A file is there: ask whether to overwrite it, append to it, or cancel.
    AskOverwrite,
}

/// How the destination file is written.
#[derive(Clone, Copy, Debug, PartialEq, Eq, Structural)]
pub enum SaveMode {
    Create,
    Overwrite,
    Append,
}

/// The user's answer when the destination file already exists.
#[derive(Clone, Copy, Debug, PartialEq, Eq, Structural)]
pub enum Choice {
    Overwrite,
    Append,
    Cancel,
}

/// The options the destination file is opened with; it is always opened
/// for writing.
#[derive(Clone, Copy, Debug, PartialEq, Eq, Structural)]
pub struct OpenFlags {
    /// Fail if the file exists already.
    pub create_new: bool,
    /// Drop the existing contents first.
    pub truncate: bool,
    /// Write after the existing contents.
    pub append: bool,
}

pub open spec fn save_decision(any_selected: bool, file_exists: bool) -> SaveDecision {
    if !any_selected {
        SaveDecision::NothingToSave
    } else if !file_exists {
        SaveDecision::Create
    } else {
        SaveDecision::AskOverwrite
    }
}

/// Chooses what a save request does: no selection means a warning with no
/// file access; otherwise a missing file is created and an existing one
/// leads to the overwrite question.
pub fn decide_save(any_selected: bool, file_exists: bool) -> (r: SaveDecision)
    ensures
        !any_selected ==> r == SaveDecision::NothingToSave,
        any_selected && !file_exists ==> r == SaveDecision::Create,
        any_selected && file_exists ==> r == SaveDecision::AskOverwrite,
{
    if !any_selected {
        SaveDecision::NothingToSave
    } else if !file_exists {
        SaveDecision::Create
    } else {
        SaveDecision::AskOverwrite
    }
}

/// The write mode that an answer to the overwrite question asks for.
pub fn chosen_mode(choice: Choice) -> (r: Option<SaveMode>)
    ensures
        choice == Choice::Overwrite ==> r == Some(SaveMode::Overwrite),
        choice == Choice::Append ==> r == Some(SaveMode::Append),
        choice == Choice::Cancel ==> r is None,
{
    match choice {
        Choice::Overwrite => Some(SaveMode::Overwrite),
        Choice::Append => Some(SaveMode::Append),
        Choice::Cancel => None,
    }
}

pub open spec fn flags_for(mode: SaveMode) -> OpenFlags {
    OpenFlags {
        create_new: mode == SaveMode::Create,
        truncate: mode == SaveMode::Overwrite,
        append: mode == SaveMode::Append,
    }
}

/// Create must not replace a file that appeared meanwhile, Overwrite
/// truncates, Append writes after what is there.
pub fn open_flags(mode: SaveMode) -> (r: OpenFlags)
    ensures
        r == flags_for(mode),
{
    OpenFlags {
        create_new: mode == SaveMode::Create,
        truncate: mode == SaveMode::Overwrite,
        append: mode == SaveMode::Append,
    }
}

pub open spec fn nothing_to_save_text() -> Seq<char> {
    "Select one or more templates and try again."@
}

pub fn nothing_to_save_message() -> (r: String)
    ensures
        r@ == nothing_to_save_text(),
{
    String::from_str("Select one or more templates and try again.")
}

pub open spec fn outcome_text(mode: SaveMode) -> Seq<char> {
    match mode {
        SaveMode::Create => "Created new .gitignore file."@,
        SaveMode::Overwrite => "Replaced contents of existing .gitignore file."@,
        SaveMode::Append => "Appended templates to existing .gitignore file."@,
    }
}

/// The message left when a save succeeded.
pub fn outcome_message(mode: SaveMode) -> (r: String)
    ensures
        r@ == outcome_text(mode),
{
    match mode {
        SaveMode::Create => String::from_str("Created new .gitignore file."),
        SaveMode::Overwrite => String::from_str("Replaced contents of existing .gitignore file."),
        SaveMode::Append => String::from_str("Appended templates to existing .gitignore file."),
    }
}

/// `head`, then the cause in brackets.
pub open spec fn with_cause(head: Seq<char>, cause: Seq<char>) -> Seq<char> {
    head + "["@ + cause + "]"@
}

pub fn message_with_cause(head: &str, cause: &str) -> (r: String)
    ensures
        r@ == with_cause(head@, cause@),
{
    let mut r = String::from_str(head);
    r.append("[");
    r.append(cause);
    r.append("]");
    r
}

} // verus!
