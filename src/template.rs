use vstd::prelude::*;

verus! {

/// The abstract value of a template: its name and whether it is selected.
pub type Entry = (Seq<char>, bool);

/// The entries of `s` whose selection flag equals `flag`, in catalog order.
pub open spec fn with_flag(s: Seq<Entry>, flag: bool) -> Seq<Entry> {
    s.filter(flag_is(flag))
}

/// Holds of the entries whose selection flag equals `flag`.
pub open spec fn flag_is(flag: bool) -> spec_fn(Entry) -> bool {
    |e: Entry| e.1 == flag
}

/// `s` after every entry named `name` got the selection flag `flag`.
pub open spec fn flagged(s: Seq<Entry>, name: Seq<char>, flag: bool) -> Seq<Entry> {
    s.map_values(|e: Entry| if e.0 == name { (e.0, flag) } else { e })
}

/// The names of the entries of `s`, in order.
pub open spec fn names_of(s: Seq<Entry>) -> Seq<Seq<char>> {
    s.map_values(|e: Entry| e.0)
}

/// The characters of each string of `v`, in order.
pub open spec fn texts(v: Seq<String>) -> Seq<Seq<char>> {
    v.map_values(|s: String| s@)
}

/// The abstract values of the templates of `v`, in order.
pub open spec fn entries(v: Seq<Template>) -> Seq<Entry> {
    v.map_values(|t: Template| t@)
}

/// Every entry is either selected or unselected: the two projections of a
/// catalog together are as long as the catalog.
pub proof fn lemma_partition_total(c: Seq<Entry>)
    ensures
        with_flag(c, true).len() + with_flag(c, false).len() == c.len(),
    decreases c.len(),
{
    if c.len() > 0 {
        lemma_partition_total(c.drop_last());
        assert(c =~= c.drop_last().push(c.last()));
        c.drop_last().lemma_filter_push(c.last(), flag_is(true));
        c.drop_last().lemma_filter_push(c.last(), flag_is(false));
    }
}

/// After selecting `n`, no entry named `n` is left among the unselected
/// ones; after unselecting `n`, none is left among the selected ones.
pub proof fn lemma_flag_moves_entry(c: Seq<Entry>, n: Seq<char>)
    ensures
        forall|i: int|
            0 <= i < with_flag(flagged(c, n, true), false).len()
                ==> #[trigger] with_flag(flagged(c, n, true), false)[i].0 != n,
        forall|i: int|
            0 <= i < with_flag(flagged(c, n, false), true).len()
                ==> #[trigger] with_flag(flagged(c, n, false), true)[i].0 != n,
{
    lemma_flag_excludes(c, n, true, false);
    lemma_flag_excludes(c, n, false, true);
}

proof fn lemma_flag_excludes(c: Seq<Entry>, n: Seq<char>, flag: bool, keep: bool)
    requires
        keep == !flag,
    ensures
        forall|i: int|
            0 <= i < with_flag(flagged(c, n, flag), keep).len()
                ==> #[trigger] with_flag(flagged(c, n, flag), keep)[i].0 != n,
{
    let f = flagged(c, n, flag);
    assert forall|i: int| 0 <= i < with_flag(f, keep).len() implies #[trigger] with_flag(
        f,
        keep,
    )[i].0 != n by {
        f.lemma_filter_pred(flag_is(keep), i);
        let e = with_flag(f, keep)[i];
        assert(f.filter(flag_is(keep)).contains(e));
        f.lemma_filter_contains_rev(flag_is(keep), e);
        let j = choose|j: int| 0 <= j < f.len() && f[j] == e;
        assert(f[j] == (if c[j].0 == n { (c[j].0, flag) } else { c[j] }));
    }
}

/// A named template of the catalog together with its selection flag.
#[derive(Clone, Debug, Default)]
pub struct Template {
    name: String,
    is_selected: bool,
}

impl View for Template {
    type V = Entry;

    closed spec fn view(&self) -> Entry {
        (self.name@, self.is_selected)
    }
}

impl Template {
    fn new(name: String) -> (r: Template)
        ensures
            r@ == (name@, false),
    {
        Template { name, is_selected: false }
    }

    /// A template with the same name and flag as this one.
    fn duplicate(&self) -> (r: Template)
        ensures
            r@ == self@,
    {
        Template { name: self.name.clone(), is_selected: self.is_selected }
    }

    pub fn name(&self) -> (r: &str)
        ensures
            r@ == self@.0,
    {
        self.name.as_str()
    }

    pub fn is_selected(&self) -> (r: bool)
        ensures
            r == self@.1,
    {
        self.is_selected
    }
}

/// The catalog: every known template in the order the source listed them.
#[derive(Clone, Debug, Default)]
pub struct Templates {
    options: Vec<Template>,
}

impl View for Templates {
    type V = Seq<Entry>;

    closed spec fn view(&self) -> Seq<Entry> {
        entries(self.options@)
    }
}

impl Templates {
    pub fn new() -> (r: Templates)
        ensures
            r@ == Seq::<Entry>::empty(),
    {
        let r = Templates { options: Vec::new() };
        assert(r@ =~= Seq::<Entry>::empty());
        r
    }

    /// Replaces the whole catalog by `names`, all of them unselected.
    pub fn set_list(&mut self, names: Vec<String>)
        ensures
            final(self)@ == names@.map_values(|n: String| (n@, false)),
    {
        self.options.clear();
        let mut i: usize = 0;
        while i < names.len()
            invariant
                0 <= i <= names@.len(),
                self.options@.len() == i,
                forall|k: int| 0 <= k < i ==> #[trigger] self.options@[k]@ == (names@[k]@, false),
            decreases names@.len() - i,
        {
            let name = names[i].clone();
            self.options.push(Template::new(name));
            i = i + 1;
        }
        assert(self@ =~= names@.map_values(|n: String| (n@, false)));
    }

    pub fn select_template(&mut self, name: &str)
        ensures
            final(self)@ == flagged(old(self)@, name@, true),
    {
        self.set_template_selected_flag(name, true);
    }

    pub fn unselect_template(&mut self, name: &str)
        ensures
            final(self)@ == flagged(old(self)@, name@, false),
    {
        self.set_template_selected_flag(name, false);
    }

    pub fn selected_templates(&self) -> (r: Vec<Template>)
        ensures
            entries(r@) == with_flag(self@, true),
    {
        self.get_list(true)
    }

    pub fn unselected_templates(&self) -> (r: Vec<Template>)
        ensures
            entries(r@) == with_flag(self@, false),
    {
        self.get_list(false)
    }

    pub fn selected_template_names(&self) -> (r: Vec<String>)
        ensures
            texts(r@) == names_of(with_flag(self@, true)),
    {
        let selected = self.selected_templates();
        let mut r: Vec<String> = Vec::new();
        let mut i: usize = 0;
        while i < selected.len()
            invariant
                0 <= i <= selected@.len(),
                r@.len() == i,
                forall|k: int| 0 <= k < i ==> #[trigger] r@[k]@ == selected@[k]@.0,
            decreases selected@.len() - i,
        {
            r.push(selected[i].name.clone());
            i = i + 1;
        }
        assert(texts(r@) =~= names_of(entries(selected@)));
        r
    }

    pub fn any_selected(&self) -> (r: bool)
        ensures
            r == exists|k: int| 0 <= k < self@.len() && #[trigger] self@[k].1,
    {
        let mut i: usize = 0;
        while i < self.options.len()
            invariant
                0 <= i <= self@.len(),
                self@.len() == self.options@.len(),
                forall|k: int| 0 <= k < i ==> !(#[trigger] self@[k].1),
            decreases self.options@.len() - i,
        {
            if self.options[i].is_selected {
                assert(self@[i as int].1);
                return true;
            }
            i = i + 1;
        }
        false
    }

    fn set_template_selected_flag(&mut self, name: &str, selected: bool)
        ensures
            final(self)@ == flagged(old(self)@, name@, selected),
    {
        let target = String::from_str(name);
        let ghost before = self.options@;
        let mut i: usize = 0;
        while i < self.options.len()
            invariant
                0 <= i <= self.options@.len(),
                self.options@.len() == before.len(),
                before == old(self).options@,
                target@ == name@,
                forall|k: int|
                    0 <= k < i ==> #[trigger] self.options@[k]@ == flagged(entries(before), name@, selected)[k],
                forall|k: int| i <= k < self.options@.len() ==> #[trigger] self.options@[k] == before[k],
            decreases self.options@.len() - i,
        {
            if self.options[i].name == target {
                self.options[i].is_selected = selected;
            }
            assert(self.options@[i as int]@ == flagged(entries(before), name@, selected)[i as int]);
            i = i + 1;
        }
        assert(self@ =~= flagged(old(self)@, name@, selected));
    }

    fn get_list(&self, selected: bool) -> (r: Vec<Template>)
        ensures
            entries(r@) == with_flag(self@, selected),
    {
        let mut r: Vec<Template> = Vec::new();
        let mut i: usize = 0;
        while i < self.options.len()
            invariant
                0 <= i <= self@.len(),
                self@.len() == self.options@.len(),
                entries(r@) == with_flag(self@.take(i as int), selected),
            decreases self.options@.len() - i,
        {
            let t = &self.options[i];
            proof {
                assert(self@.take(i + 1) =~= self@.take(i as int).push(self@[i as int]));
                self@.take(i as int).lemma_filter_push(self@[i as int], flag_is(selected));
            }
            if t.is_selected == selected {
                let ghost r0 = r@;
                r.push(t.duplicate());
                assert(entries(r@) =~= entries(r0).push(t@));
            }
            i = i + 1;
        }
        assert(self@.take(i as int) =~= self@);
        r
    }
}

} // verus!
