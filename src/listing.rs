use vstd::prelude::*;
use vstd::string::StringExecFns;

use crate::template::texts;

verus! {

#[verifier::external_type_specification]
#[verifier::external_body]
pub struct ExRegex(regex::Regex);

#[verifier::external_type_specification]
#[verifier::external_body]
pub struct ExRegexError(regex::Error);

/// The characters that have a meaning in a regular expression.
pub open spec fn is_meta(c: char) -> bool {
    c == '\\' || c == '.' || c == '+' || c == '*' || c == '?' || c == '(' || c == ')' || c == '|'
        || c == '[' || c == ']' || c == '{' || c == '}' || c == '^' || c == '$' || c == '#'
        || c == '&' || c == '-' || c == '~'
}

/// `s` with a backslash before each character that has a meaning in a
/// regular expression: an expression that matches `s` literally.
pub open spec fn escaped_text(s: Seq<char>) -> Seq<char>
    decreases s.len(),
{
    if s.len() == 0 {
        Seq::empty()
    } else {
        escaped_text(s.drop_last()) + if is_meta(s.last()) {
            seq!['\\', s.last()]
        } else {
            seq![s.last()]
        }
    }
}

/// Whether `regex::Regex::new` accepts the expression `pattern`.
pub uninterp spec fn regex_compiles(pattern: Seq<char>) -> bool;

/// Relies on `regex::escape`: a backslash goes before each meta character.
pub assume_specification[ regex::escape ](pattern: &str) -> (r: String)
    ensures
        r@ == escaped_text(pattern@),
;

/// Relies on `regex::Regex::new`: with the default settings, whether the
/// expression compiles depends on its text alone.
pub assume_specification[ regex::Regex::new ](re: &str) -> (r: Result<regex::Regex, regex::Error>)
    ensures
        r is Ok <==> regex_compiles(re@),
;

/// Whether `t` occurs in `h` as consecutive characters.
pub open spec fn contains_text(h: Seq<char>, t: Seq<char>) -> bool {
    exists|i: int| 0 <= i && i + t.len() <= h.len() && #[trigger] h.subrange(i, i + t.len()) == t
}

/// Holds of the names in which `t` occurs.
pub open spec fn containing(t: Seq<char>) -> spec_fn(Seq<char>) -> bool {
    |n: Seq<char>| contains_text(n, t)
}

/// A regular expression that matches one text literally.
pub struct LiteralPattern {
    re: regex::Regex,
    text: String,
    escaped: String,
}

impl View for LiteralPattern {
    type V = Seq<char>;

    closed spec fn view(&self) -> Seq<char> {
        self.text@
    }
}

impl LiteralPattern {
    #[verifier::type_invariant]
    spec fn escapes_text(&self) -> bool {
        self.escaped@ == escaped_text(self.text@)
    }

    /// The expression that matches `text` literally; it fails only where
    /// `regex` refuses the escaped text.
    pub fn compile(text: &str) -> (r: Result<LiteralPattern, regex::Error>)
        ensures
            r is Ok <==> regex_compiles(escaped_text(text@)),
            r matches Ok(p) ==> p@ == text@,
    {
        let escaped = regex::escape(text);
        match regex::Regex::new(escaped.as_str()) {
            Ok(re) => Ok(LiteralPattern { re, text: String::from_str(text), escaped }),
            Err(e) => Err(e),
        }
    }

    /// The text that the expression matches.
    pub fn text(&self) -> (r: &str)
        ensures
            r@ == self@,
    {
        self.text.as_str()
    }

    /// The expression itself: the text with its meta characters escaped.
    pub fn escaped(&self) -> (r: &str)
        ensures
            r@ == escaped_text(self@),
    {
        proof {
            use_type_invariant(self);
        }
        self.escaped.as_str()
    }

    /// Relies on `regex::Regex::is_match`, true if and only if the
    /// expression matches anywhere in the haystack. The expression was made
    /// by `regex::escape` from the text (only `compile` builds one), so it
    /// matches where the text occurs.
    #[verifier::external_body]
    fn is_match(&self, haystack: &str) -> (r: bool)
        ensures
            r == contains_text(haystack@, self@),
    {
        self.re.is_match(haystack)
    }
}

/// Why a listing could not be made.
#[derive(Debug)]
pub enum ListError {
    /// The filter did not give a usable regular expression.
    Pattern(regex::Error),
}

/// The names of a listing, and the warning to show when a filter left none.
#[derive(Debug)]
pub struct Listing {
    pub names: Vec<String>,
    pub warning: Option<String>,
}

/// The names in which the text of `pattern` occurs, in their order.
pub fn matching_names(names: &Vec<String>, pattern: &LiteralPattern) -> (r: Vec<String>)
    ensures
        texts(r@) == texts(names@).filter(containing(pattern@)),
{
    let ghost v = texts(names@);
    let mut r: Vec<String> = Vec::new();
    let mut i: usize = 0;
    while i < names.len()
        invariant
            0 <= i <= names@.len(),
            v == texts(names@),
            texts(r@) == v.take(i as int).filter(containing(pattern@)),
        decreases names@.len() - i,
    {
        proof {
            assert(v.take(i + 1) =~= v.take(i as int).push(v[i as int]));
            v.take(i as int).lemma_filter_push(v[i as int], containing(pattern@));
        }
        if pattern.is_match(names[i].as_str()) {
            let ghost r0 = texts(r@);
            r.push(names[i].clone());
            assert(texts(r@) =~= r0.push(v[i as int]));
        }
        i = i + 1;
    }
    assert(v.take(i as int) =~= v);
    r
}

pub open spec fn no_match_text(escaped_filter: Seq<char>) -> Seq<char> {
    "No templates match \""@ + escaped_filter + "\""@
}

/// The names to list: all of them without a filter; with one, those that
/// contain the filter text, and a warning when there are none.
pub fn list_names(names: Vec<String>, filter: Option<String>) -> (r: Result<Listing, ListError>)
    ensures
        filter is None ==> r is Ok && r->Ok_0.names@ == names@ && r->Ok_0.warning is None,
        filter matches Some(f) ==> (r is Ok <==> regex_compiles(escaped_text(f@))),
        filter is Some && r is Ok ==> {
            let f = filter->Some_0;
            let l = r->Ok_0;
            &&& texts(l.names@) == texts(names@).filter(containing(f@))
            &&& l.warning is Some <==> l.names@.len() == 0
            &&& l.warning is Some ==> l.warning->Some_0@ == no_match_text(escaped_text(f@))
        },
{
    match filter {
        None => Ok(Listing { names, warning: None }),
        Some(text) => match LiteralPattern::compile(text.as_str()) {
            Err(e) => Err(ListError::Pattern(e)),
            Ok(pattern) => {
                let found = matching_names(&names, &pattern);
                if found.len() == 0 {
                    let mut warning = String::from_str("No templates match \"");
                    warning.append(pattern.escaped());
                    warning.append("\"");
                    Ok(Listing { names: found, warning: Some(warning) })
                } else {
                    Ok(Listing { names: found, warning: None })
                }
            },
        },
    }
}

} // verus!
