use vstd::prelude::*;

use crate::template::{Entry, Templates, flag_is, names_of, texts, with_flag};
use crate::text::{has_prefix, starts_with};

verus! {

/// Holds of the entries whose name begins with `prefix`.
pub open spec fn named_with_prefix(prefix: Seq<char>) -> spec_fn(Entry) -> bool {
    |e: Entry| starts_with(e.0, prefix)
}

/// The unselected entries of `c` whose name begins with `prefix`, in order.
pub open spec fn available(c: Seq<Entry>, prefix: Seq<char>) -> Seq<Entry> {
    with_flag(c, false).filter(named_with_prefix(prefix))
}

/// The names listed as available to pick under the filter `prefix`.
pub fn available_names(templates: &Templates, prefix: &str) -> (r: Vec<String>)
    ensures
        texts(r@) == names_of(available(templates@, prefix@)),
{
    let unselected = templates.unselected_templates();
    let ghost u = with_flag(templates@, false);
    let mut r: Vec<String> = Vec::new();
    let mut i: usize = 0;
    while i < unselected.len()
        invariant
            0 <= i <= unselected@.len(),
            u == crate::template::entries(unselected@),
            texts(r@) == names_of(u.take(i as int).filter(named_with_prefix(prefix@))),
        decreases unselected@.len() - i,
    {
        let name = unselected[i].name();
        proof {
            assert(u.take(i + 1) =~= u.take(i as int).push(u[i as int]));
            u.take(i as int).lemma_filter_push(u[i as int], named_with_prefix(prefix@));
        }
        if has_prefix(name, prefix) {
            let ghost r0 = r@;
            r.push(name.to_owned());
            assert(texts(r@) =~= texts(r0).push(u[i as int].0));
            assert(names_of(u.take(i + 1).filter(named_with_prefix(prefix@))) =~= names_of(
                u.take(i as int).filter(named_with_prefix(prefix@)),
            ).push(u[i as int].0));
        }
        i = i + 1;
    }
    assert(u.take(i as int) =~= u);
    r
}

/// The row to highlight in the new list of available names: none when the
/// filter text just changed, else the previous row, kept inside the list.
pub open spec fn cursor_row(just_changed: bool, previous: Option<usize>, len: nat) -> Option<
    usize,
> {
    if just_changed || len == 0 {
        None
    } else {
        match previous {
            None => None,
            Some(p) => if p < len {
                Some(p)
            } else {
                Some((len - 1) as usize)
            },
        }
    }
}

pub fn cursor(just_changed: bool, previous: Option<usize>, len: usize) -> (r: Option<usize>)
    ensures
        r == cursor_row(just_changed, previous, len as nat),
{
    if just_changed || len == 0 {
        None
    } else {
        match previous {
            None => None,
            Some(p) => if p < len {
                Some(p)
            } else {
                Some(len - 1)
            },
        }
    }
}

/// The available list under a filter holds exactly the unselected entries
/// whose name begins with the filter text, and filtering it again by the
/// same text changes nothing.
pub proof fn lemma_filter_exact(c: Seq<Entry>, prefix: Seq<char>)
    ensures
        forall|e: Entry|
            available(c, prefix).contains(e) <==> (c.contains(e) && !e.1 && starts_with(
                e.0,
                prefix,
            )),
        available(c, prefix).filter(named_with_prefix(prefix)) == available(c, prefix),
{
    let u = with_flag(c, false);
    let a = available(c, prefix);
    assert forall|e: Entry| a.contains(e) <==> (c.contains(e) && !e.1 && starts_with(
        e.0,
        prefix,
    )) by {
        if a.contains(e) {
            u.lemma_filter_contains_rev(named_with_prefix(prefix), e);
            c.lemma_filter_contains_rev(flag_is(false), e);
            let j = choose|j: int| 0 <= j < a.len() && a[j] == e;
            u.lemma_filter_pred(named_with_prefix(prefix), j);
            let k = choose|k: int| 0 <= k < u.len() && u[k] == e;
            c.lemma_filter_pred(flag_is(false), k);
        }
        if c.contains(e) && !e.1 && starts_with(e.0, prefix) {
            let j = choose|j: int| 0 <= j < c.len() && c[j] == e;
            c.lemma_filter_contains(flag_is(false), j);
            let k = choose|k: int| 0 <= k < u.len() && u[k] == e;
            u.lemma_filter_contains(named_with_prefix(prefix), k);
        }
    }
    assert forall|i: int| 0 <= i < a.len() implies named_with_prefix(prefix)(#[trigger] a[i]) by {
        u.lemma_filter_pred(named_with_prefix(prefix), i);
    }
    lemma_filter_keeps_all(a, named_with_prefix(prefix));
}

proof fn lemma_filter_keeps_all(s: Seq<Entry>, p: spec_fn(Entry) -> bool)
    requires
        forall|i: int| 0 <= i < s.len() ==> p(#[trigger] s[i]),
    ensures
        s.filter(p) == s,
    decreases s.len(),
{
    reveal(Seq::filter);
    if s.len() > 0 {
        assert forall|i: int| 0 <= i < s.drop_last().len() implies p(#[trigger] s.drop_last()[i]) by {
            assert(s.drop_last()[i] == s[i]);
        }
        lemma_filter_keeps_all(s.drop_last(), p);
        assert(p(s[s.len() - 1]));
        assert(s.drop_last().push(s.last()) =~= s);
    }
}

} // verus!
