use vstd::prelude::*;
use vstd::string::{StrSliceExecFns, StringExecFns};

verus! {

/// The abstract filter state: the typed text, and whether it changed since
/// the last time the display lists were drawn.
pub type FilterView = (Seq<char>, bool);

/// The state after typing `c`.
pub open spec fn appended(s: FilterView, c: char) -> FilterView {
    (s.0.push(c), true)
}

/// The state after a backspace: the last character goes, if there is one.
pub open spec fn backspaced(s: FilterView) -> FilterView {
    if s.0.len() == 0 {
        s
    } else {
        (s.0.drop_last(), true)
    }
}

/// The state after the filter was reset to the empty text.
pub open spec fn cleared(s: FilterView) -> FilterView {
    if s.0.len() == 0 {
        s
    } else {
        (Seq::empty(), true)
    }
}

/// The prefix typed by the user to narrow the list of unselected templates.
#[derive(Clone, Debug, Default)]
pub struct FilterState {
    text: String,
    just_changed: bool,
}

impl View for FilterState {
    type V = FilterView;

    closed spec fn view(&self) -> FilterView {
        (self.text@, self.just_changed)
    }
}

impl FilterState {
    pub fn new() -> (r: FilterState)
        ensures
            r@ == (Seq::<char>::empty(), false),
    {
        FilterState { text: String::new(), just_changed: false }
    }

    pub fn text(&self) -> (r: &str)
        ensures
            r@ == self@.0,
    {
        self.text.as_str()
    }

    pub fn just_changed(&self) -> (r: bool)
        ensures
            r == self@.1,
    {
        self.just_changed
    }

    /// Adds a typed character at the end of the filter.
    pub fn append(&mut self, c: char)
        ensures
            final(self)@ == appended(old(self)@, c),
    {
        self.text.push(c);
        self.just_changed = true;
    }

    /// Removes the last character of the filter, if any.
    pub fn backspace(&mut self)
        ensures
            final(self)@ == backspaced(old(self)@),
    {
        let len = self.text.as_str().unicode_len();
        if len > 0 {
            let shorter = String::from_str(self.text.as_str().substring_char(0, len - 1));
            self.text = shorter;
            self.just_changed = true;
            assert(self.text@ =~= old(self)@.0.drop_last());
        }
    }

    /// Empties the filter.
    pub fn clear(&mut self)
        ensures
            final(self)@ == cleared(old(self)@),
    {
        if self.text.as_str().unicode_len() > 0 {
            self.text = String::new();
            self.just_changed = true;
        }
    }

    /// Reads the change flag and resets it, as a redraw does.
    pub fn take_just_changed(&mut self) -> (r: bool)
        ensures
            r == old(self)@.1,
            final(self)@ == (old(self)@.0, false),
    {
        let r = self.just_changed;
        self.just_changed = false;
        r
    }
}

/// Typing a character and then erasing it gives back the text as it was,
/// and marks the filter as just changed.
pub proof fn lemma_append_backspace(s: FilterView, c: char)
    ensures
        backspaced(appended(s, c)) == (s.0, true),
        appended(s, c).1,
{
    assert(s.0.push(c).drop_last() =~= s.0);
}

} // verus!
