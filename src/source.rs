use vstd::prelude::*;
use vstd::string::{StrSliceExecFns, StringExecFns};

use crate::template::texts;
use crate::text::{join, joined};

verus! {

/// The address of the template service.
pub const API_URL: &'static str = "https://www.toptal.com/developers/gitignore/api";

/// Whether `c` ends one name and starts the next in the service's list.
pub open spec fn is_separator(c: char) -> bool {
    c == '\n' || c == ','
}

/// The pieces of `s` between separators, empty ones included: `s` with no
/// separator is one piece, and each separator starts a new one.
pub open spec fn pieces(s: Seq<char>) -> Seq<Seq<char>>
    decreases s.len(),
{
    if s.len() == 0 {
        seq![Seq::empty()]
    } else {
        let p = pieces(s.drop_last());
        if is_separator(s.last()) {
            p.push(Seq::empty())
        } else {
            p.update(p.len() - 1, p.last().push(s.last()))
        }
    }
}

proof fn lemma_pieces_nonempty(s: Seq<char>)
    ensures
        pieces(s).len() >= 1,
    decreases s.len(),
{
    if s.len() > 0 {
        lemma_pieces_nonempty(s.drop_last());
    }
}

/// The URL that lists every template name.
pub fn list_url() -> (r: String)
    ensures
        r@ == API_URL@ + "/list"@,
{
    let mut r = String::from_str(API_URL);
    r.append("/list");
    r
}

/// The URL of the merged body of the templates `names`.
pub fn template_url(names: &Vec<String>) -> (r: String)
    ensures
        r@ == API_URL@ + "/"@ + joined(texts(names@), ","@),
{
    let mut r = String::from_str(API_URL);
    r.append("/");
    let list = join(names, ",");
    r.append(list.as_str());
    r
}

/// The template names in the body of the list response: the service sends
/// them separated by commas, over several lines.
pub fn parse_template_names(body: &str) -> (r: Vec<String>)
    ensures
        texts(r@) == pieces(body@),
{
    let n = body.unicode_len();
    let mut r: Vec<String> = Vec::new();
    let mut current = String::new();
    let mut i: usize = 0;
    while i < n
        invariant
            n == body@.len(),
            0 <= i <= n,
            texts(r@).push(current@) == pieces(body@.take(i as int)),
        decreases n - i,
    {
        let c = body.get_char(i);
        let ghost before = body@.take(i as int);
        proof {
            lemma_pieces_nonempty(before);
            assert(body@.take(i + 1).drop_last() =~= before);
            assert(body@.take(i + 1).last() == c);
        }
        if c == '\n' || c == ',' {
            r.push(current);
            current = String::new();
            assert(texts(r@).push(current@) =~= pieces(before).push(Seq::empty()));
        } else {
            let ghost r0 = texts(r@).push(current@);
            current.push(c);
            assert(texts(r@).push(current@) =~= r0.update(r0.len() - 1, r0.last().push(c)));
        }
        i = i + 1;
    }
    r.push(current);
    assert(body@.take(n as int) =~= body@);
    r
}

/// The warning for a failed fetch of the merged body of `names`.
pub fn generate_failure_message(names: &Vec<String>) -> (r: String)
    ensures
        r@ == "Problem getting .gitignore for \""@ + joined(texts(names@), " "@) + "\": "@,
{
    let mut r = String::from_str("Problem getting .gitignore for \"");
    let list = join(names, " ");
    r.append(list.as_str());
    r.append("\": ");
    r
}

} // verus!
