use vstd::prelude::*;

use crate::text::{
    lemma_lex_asymmetric, lemma_lex_irreflexive, lemma_lex_total, lemma_lex_transitive, lex_lt,
    name_lt,
};

verus! {

/// Models of named entities (disks, interfaces), kept in ascending order of name,
/// one entry per name.
#[derive(Debug)]
pub struct ModelMap<T> {
    entries: Vec<(String, T)>,
}

/// Named entries with the names as character sequences.
pub open spec fn named_view<T>(s: Seq<(String, T)>) -> Seq<(Seq<char>, T)> {
    s.map_values(|e: (String, T)| (e.0@, e.1))
}

/// Whether the names of `s` ascend strictly.
pub open spec fn names_ascending<T>(s: Seq<(Seq<char>, T)>) -> bool {
    forall|i: int, j: int| 0 <= i < j < s.len() ==> lex_lt(#[trigger] s[i].0, #[trigger] s[j].0)
}

/// Whether some entry of `s` is named `name`.
pub open spec fn has_name<T>(s: Seq<(Seq<char>, T)>, name: Seq<char>) -> bool {
    exists|i: int| 0 <= i < s.len() && #[trigger] s[i].0 == name
}

impl<T> ModelMap<T> {
    /// The entries, names as character sequences, in the order they are kept.
    pub closed spec fn entries_view(&self) -> Seq<(Seq<char>, T)> {
        named_view(self.entries@)
    }

    pub open spec fn wf(&self) -> bool {
        names_ascending(self.entries_view())
    }

    #[verifier::type_invariant]
    spec fn names_stay_ascending(&self) -> bool {
        self.wf()
    }

    pub fn new() -> (r: Self)
        ensures
            r.wf(),
            r.entries_view() == Seq::<(Seq<char>, T)>::empty(),
    {
        let r = ModelMap { entries: Vec::new() };
        assert(r.entries_view() =~= Seq::<(Seq<char>, T)>::empty());
        r
    }

    /// The entries, in ascending order of name.
    pub fn entries(&self) -> (r: &Vec<(String, T)>)
        ensures
            named_view(r@) == self.entries_view(),
            names_ascending(named_view(r@)),
    {
        proof {
            use_type_invariant(self);
        }
        &self.entries
    }

    pub fn len(&self) -> (r: usize)
        ensures
            r == self.entries_view().len(),
    {
        self.entries.len()
    }

    /// The name of the entry at `i`.
    pub fn name_at(&self, i: usize) -> (r: &String)
        requires
            i < self.entries_view().len(),
        ensures
            r@ == self.entries_view()[i as int].0,
    {
        &self.entries[i].0
    }

    /// The model of the entry at `i`.
    pub fn model_at(&self, i: usize) -> (r: &T)
        requires
            i < self.entries_view().len(),
        ensures
            *r == self.entries_view()[i as int].1,
    {
        &self.entries[i].1
    }

    /// Sets the model of `name`: the entry of that name is replaced if there is one,
    /// else a new entry goes in at the place that keeps the names ascending.
    pub fn insert(&mut self, name: String, model: T)
        ensures
            final(self).wf(),
            has_name(old(self).entries_view(), name@) ==> exists|p: int|
                0 <= p < old(self).entries_view().len() && old(self).entries_view()[p].0 == name@
                    && final(self).entries_view() == old(self).entries_view().update(
                    p,
                    (name@, model),
                ),
            !has_name(old(self).entries_view(), name@) ==> exists|p: int|
                0 <= p <= old(self).entries_view().len() && final(self).entries_view()
                    == old(self).entries_view().insert(p, (name@, model)),
    {
        proof {
            use_type_invariant(&*self);
        }
        let ghost ev = self.entries_view();
        let mut entries: Vec<(String, T)> = Vec::new();
        std::mem::swap(&mut entries, &mut self.entries);
        assert(named_view(entries@) == ev);
        let n = entries.len();
        let mut p: usize = 0;
        while p < n && name_lt(entries[p].0.as_str(), name.as_str())
            invariant
                n == entries@.len(),
                ev == named_view(entries@),
                p <= n,
                forall|i: int| 0 <= i < p ==> lex_lt(#[trigger] ev[i].0, name@),
            decreases n - p,
        {
            p = p + 1;
        }
        // Every name before `p` is below `name`, and none from `p` on is.
        assert forall|i: int| p <= i < n implies !lex_lt(#[trigger] ev[i].0, name@) by {
            if i > p {
                if lex_lt(ev[i].0, name@) {
                    lemma_lex_transitive(ev[p as int].0, ev[i].0, name@);
                }
            }
        }
        let same = p < n && !name_lt(name.as_str(), entries[p].0.as_str());
        if same {
            proof {
                lemma_lex_total(ev[p as int].0, name@);
            }
            let _ = entries.remove(p);
            entries.insert(p, (name, model));
            assert(named_view(entries@) =~= ev.update(p as int, (name@, model)));
            assert(has_name(ev, name@));
        } else {
            proof {
                if p < n {
                    lemma_lex_total(ev[p as int].0, name@);
                }
                assert forall|i: int| 0 <= i < n implies #[trigger] ev[i].0 != name@ by {
                    if i < p {
                        lemma_lex_irreflexive(name@);
                    } else {
                        if i > p {
                            lemma_lex_asymmetric(ev[p as int].0, ev[i].0);
                            lemma_lex_transitive(name@, ev[p as int].0, ev[i].0);
                            lemma_lex_irreflexive(name@);
                        }
                    }
                }
            }
            entries.insert(p, (name, model));
            assert(named_view(entries@) =~= ev.insert(p as int, (name@, model)));
        }
        proof {
            let nv = named_view(entries@);
            assert forall|i: int, j: int| 0 <= i < j < nv.len() implies lex_lt(
                #[trigger] nv[i].0,
                #[trigger] nv[j].0,
            ) by {
                if i == p && j != p {
                    if !same && j - 1 > p {
                        lemma_lex_transitive(name@, ev[p as int].0, ev[j - 1].0);
                    } else {
                        lemma_lex_total(ev[p as int].0, name@);
                    }
                }
            }
        }
        self.entries = entries;
    }
}

/// Two well-formed collections that hold the same entries keep them in the same order:
/// the order of a collection does not depend on the order in which its entries came.
pub proof fn lemma_same_entries_same_order<T>(a: Seq<(Seq<char>, T)>, b: Seq<(Seq<char>, T)>)
    requires
        names_ascending(a),
        names_ascending(b),
        forall|e: (Seq<char>, T)| a.contains(e) <==> b.contains(e),
    ensures
        a == b,
    decreases a.len(),
{
    if a.len() == 0 {
        if b.len() > 0 {
            assert(b.contains(b[0]));
        }
        assert(a =~= b);
    } else if b.len() == 0 {
        assert(a.contains(a[0]));
    } else {
        assert(a.contains(a[0]));
        let j = choose|j: int| 0 <= j < b.len() && b[j] == a[0];
        assert(b.contains(b[0]));
        let i = choose|i: int| 0 <= i < a.len() && a[i] == b[0];
        if j > 0 {
            assert(lex_lt(b[0].0, b[j].0));
            if i > 0 {
                lemma_lex_asymmetric(a[0].0, a[i].0);
            } else {
                lemma_lex_irreflexive(a[0].0);
            }
        }
        assert(a[0] == b[0]);
        let a1 = a.drop_first();
        let b1 = b.drop_first();
        assert forall|e: (Seq<char>, T)| a1.contains(e) implies b1.contains(e) by {
            let k = choose|k: int| 0 <= k < a1.len() && a1[k] == e;
            assert(a.contains(e) && a[k + 1] == e);
            let m = choose|m: int| 0 <= m < b.len() && b[m] == e;
            if m == 0 {
                lemma_lex_irreflexive(a[0].0);
            }
            assert(b1[m - 1] == e);
        }
        assert forall|e: (Seq<char>, T)| b1.contains(e) implies a1.contains(e) by {
            let k = choose|k: int| 0 <= k < b1.len() && b1[k] == e;
            assert(b.contains(e) && b[k + 1] == e);
            let m = choose|m: int| 0 <= m < a.len() && a[m] == e;
            if m == 0 {
                lemma_lex_irreflexive(b[0].0);
            }
            assert(a1[m - 1] == e);
        }
        lemma_same_entries_same_order(a1, b1);
        assert(a =~= seq![a[0]] + a1);
        assert(b =~= seq![b[0]] + b1);
    }
}

} // verus!
