//! Runtime state of one automation run: scoped variables and the extracted dataset.
use vstd::prelude::*;
use crate::strmap::StrMap;
use crate::text::own;

verus! {

pub type VarMap = Map<Seq<char>, Seq<char>>;

pub open spec fn maps_view(s: Seq<StrMap>) -> Seq<VarMap> {
    s.map_values(|m: StrMap| m@)
}

pub open spec fn all_wf(s: Seq<StrMap>) -> bool {
    forall|i: int| 0 <= i < s.len() ==> (#[trigger] s[i]).wf()
}

/// Variable lookup from the innermost scope (last) outwards to the global scope (first).
pub open spec fn lookup_var(scopes: Seq<VarMap>, key: Seq<char>) -> Option<Seq<char>>
    decreases scopes.len(),
{
    if scopes.len() == 0 {
        None
    } else if scopes.last().contains_key(key) {
        Some(scopes.last()[key])
    } else {
        lookup_var(scopes.drop_last(), key)
    }
}

/// What setting a variable does to the scopes: variables are global to the
/// run, so it binds it in the global scope (the first).
pub open spec fn set_global(scopes: Seq<VarMap>, key: Seq<char>, value: Seq<char>) -> Seq<VarMap> {
    if scopes.len() == 0 {
        scopes
    } else {
        scopes.update(0, scopes[0].insert(key, value))
    }
}

/// What entering a scope does: a new innermost scope holding `bound`.
pub open spec fn push_scope_spec(scopes: Seq<VarMap>, bound: VarMap) -> Seq<VarMap> {
    scopes.push(bound)
}

/// What leaving a scope does: the innermost scope goes, but never the global one.
pub open spec fn pop_scope_spec(scopes: Seq<VarMap>) -> Seq<VarMap> {
    if scopes.len() > 1 {
        scopes.drop_last()
    } else {
        scopes
    }
}

/// No scope but the global one binds `key`.
pub open spec fn only_global_binds(scopes: Seq<VarMap>, key: Seq<char>) -> bool {
    forall|i: int| 1 <= i < scopes.len() ==> !(#[trigger] scopes[i]).contains_key(key)
}

/// Where only the global scope may bind `key`, reading it reads the global scope.
proof fn lemma_lookup_global(scopes: Seq<VarMap>, key: Seq<char>)
    requires
        scopes.len() > 0,
        only_global_binds(scopes, key),
    ensures
        lookup_var(scopes, key) == (if scopes[0].contains_key(key) {
            Some(scopes[0][key])
        } else {
            None::<Seq<char>>
        }),
    decreases scopes.len(),
{
    if scopes.len() > 1 {
        let d = scopes.drop_last();
        assert(!scopes[scopes.len() - 1].contains_key(key));
        assert forall|i: int| 1 <= i < d.len() implies !(#[trigger] d[i]).contains_key(key) by {
            assert(d[i] == scopes[i]);
        }
        lemma_lookup_global(d, key);
        assert(d[0] == scopes[0]);
    } else {
        assert(scopes.last() == scopes[0]);
        assert(lookup_var(scopes.drop_last(), key) is None);
    }
}

/// Two scope stacks that differ only in what the global scope binds for
/// `key` read every other variable alike.
proof fn lemma_lookup_other(a: Seq<VarMap>, b: Seq<VarMap>, other: Seq<char>)
    requires
        a.len() == b.len(),
        a.len() > 0,
        forall|i: int| 1 <= i < a.len() ==> a[i] == b[i],
        a[0].contains_key(other) == b[0].contains_key(other),
        a[0].contains_key(other) ==> a[0][other] == b[0][other],
    ensures
        lookup_var(a, other) == lookup_var(b, other),
    decreases a.len(),
{
    if a.len() > 1 {
        assert(a.last() == b.last());
        lemma_lookup_other(a.drop_last(), b.drop_last(), other);
    } else {
        assert(a.last() == a[0] && b.last() == b[0]);
        assert(lookup_var(a.drop_last(), other) is None);
        assert(lookup_var(b.drop_last(), other) is None);
    }
}

/// Reading a variable right after setting it gives the value that was set,
/// unless a loop or dataset scope binds a variable of the same name.
pub proof fn lemma_get_after_set(scopes: Seq<VarMap>, key: Seq<char>, value: Seq<char>)
    requires
        scopes.len() > 0,
        only_global_binds(scopes, key),
    ensures
        lookup_var(set_global(scopes, key, value), key) == Some(value),
{
    let s2 = set_global(scopes, key, value);
    assert forall|i: int| 1 <= i < s2.len() implies !(#[trigger] s2[i]).contains_key(key) by {
        assert(s2[i] == scopes[i]);
    }
    lemma_lookup_global(s2, key);
}

/// Setting a variable leaves every other variable as it was.
pub proof fn lemma_set_keeps_others(
    scopes: Seq<VarMap>,
    key: Seq<char>,
    value: Seq<char>,
    other: Seq<char>,
)
    requires
        other != key,
    ensures
        lookup_var(set_global(scopes, key, value), other) == lookup_var(scopes, other),
{
    if scopes.len() > 0 {
        let s2 = set_global(scopes, key, value);
        lemma_lookup_other(s2, scopes, other);
    }
}

/// Variables are global: one set inside a loop's scope still holds, with the
/// value that was set, after the loop's scope is left.
pub proof fn lemma_set_outlives_scope(
    scopes: Seq<VarMap>,
    bound: VarMap,
    key: Seq<char>,
    value: Seq<char>,
)
    requires
        scopes.len() > 0,
        only_global_binds(scopes, key),
    ensures
        set_global(push_scope_spec(scopes, bound), key, value)[0].contains_key(key),
        lookup_var(pop_scope_spec(set_global(push_scope_spec(scopes, bound), key, value)), key) == Some(
            value,
        ),
        pop_scope_spec(set_global(push_scope_spec(scopes, bound), key, value)) == set_global(
            scopes,
            key,
            value,
        ),
{
    let s = set_global(push_scope_spec(scopes, bound), key, value);
    assert(pop_scope_spec(s) =~= set_global(scopes, key, value));
    lemma_get_after_set(scopes, key, value);
}

/// Leaving a scope right after entering it restores the scopes: what the
/// scope bound is gone.
pub proof fn lemma_pop_after_push(scopes: Seq<VarMap>, bound: VarMap)
    requires
        scopes.len() > 0,
    ensures
        pop_scope_spec(push_scope_spec(scopes, bound)) == scopes,
{
    assert(scopes.push(bound).drop_last() =~= scopes);
}

/// A binding of the innermost scope hides the outer ones while that scope lasts.
pub proof fn lemma_inner_binding_shadows(scopes: Seq<VarMap>, bound: VarMap, key: Seq<char>)
    requires
        bound.contains_key(key),
    ensures
        lookup_var(push_scope_spec(scopes, bound), key) == Some(bound[key]),
{
    assert(push_scope_spec(scopes, bound).last() == bound);
}

/// The runtime context of one automation run.
pub struct AutomationContext {
    pub port: u16,
    pub tab_id: String,
    pub output_dir: String,
    pub current_step: usize,
    /// Stack of variable scopes; the global scope is the first.
    pub scopes: Vec<StrMap>,
    pub extracted_data: Vec<StrMap>,
    pub current_row: StrMap,
}

impl AutomationContext {
    /// At least the global scope exists, and every map keeps its keys distinct.
    pub open spec fn wf(&self) -> bool {
        &&& self.scopes@.len() >= 1
        &&& all_wf(self.scopes@)
        &&& all_wf(self.extracted_data@)
        &&& self.current_row.wf()
    }

    /// Port, tab, output directory and step index are as in `other`.
    pub open spec fn same_target(&self, other: &Self) -> bool {
        &&& self.port == other.port
        &&& self.tab_id == other.tab_id
        &&& self.output_dir == other.output_dir
        &&& self.current_step == other.current_step
    }

    pub open spec fn scopes_view(&self) -> Seq<VarMap> {
        maps_view(self.scopes@)
    }

    pub open spec fn rows_view(&self) -> Seq<VarMap> {
        maps_view(self.extracted_data@)
    }

    /// A fresh context: one empty global scope, no data.
    pub fn new(port: u16, tab_id: String, output_dir: String) -> (r: Self)
        ensures
            r.wf(),
            r.port == port,
            r.tab_id@ == tab_id@,
            r.output_dir@ == output_dir@,
            r.current_step == 0,
            r.scopes_view() == seq![Map::<Seq<char>, Seq<char>>::empty()],
            r.rows_view() == Seq::<VarMap>::empty(),
            r.current_row@ == Map::<Seq<char>, Seq<char>>::empty(),
    {
        let mut scopes: Vec<StrMap> = Vec::new();
        scopes.push(StrMap::new());
        let r = AutomationContext {
            port,
            tab_id,
            output_dir,
            current_step: 0,
            scopes,
            extracted_data: Vec::new(),
            current_row: StrMap::new(),
        };
        assert(r.scopes_view() =~= seq![Map::<Seq<char>, Seq<char>>::empty()]);
        assert(r.rows_view() =~= Seq::<VarMap>::empty());
        r
    }

    /// Binds `key` to `value` in the global scope: variables are global to the
    /// run, and a loop's scope holds only its `index` and `item`.
    pub fn set_variable(&mut self, key: String, value: String)
        requires
            old(self).wf(),
        ensures
            final(self).wf(),
            final(self).scopes_view() == set_global(old(self).scopes_view(), key@, value@),
            final(self).rows_view() == old(self).rows_view(),
            final(self).current_row@ == old(self).current_row@,
            final(self).port == old(self).port,
            final(self).tab_id == old(self).tab_id,
            final(self).output_dir == old(self).output_dir,
            final(self).current_step == old(self).current_step,
    {
        let ghost before = self.scopes_view();
        self.scopes[0].insert(key, value);
        assert(self.scopes_view() =~= set_global(before, key@, value@));
    }

    /// The value of `key` in the innermost scope that binds it.
    pub fn get_variable(&self, key: &str) -> (r: Option<String>)
        requires
            self.wf(),
        ensures
            match r {
                Some(v) => lookup_var(self.scopes_view(), key@) == Some(v@),
                None => lookup_var(self.scopes_view(), key@) is None,
            },
    {
        let k = own(key);
        let mut i: usize = self.scopes.len();
        assert(self.scopes_view().take(i as int) =~= self.scopes_view());
        while i > 0
            invariant
                i <= self.scopes.len(),
                k@ == key@,
                all_wf(self.scopes@),
                lookup_var(self.scopes_view(), key@) == lookup_var(
                    self.scopes_view().take(i as int),
                    key@,
                ),
            decreases i,
        {
            let ghost pre = self.scopes_view().take(i as int);
            assert(pre.last() == self.scopes@[i - 1]@);
            assert(pre.drop_last() =~= self.scopes_view().take(i - 1));
            match self.scopes[i - 1].get(&k) {
                Some(v) => {
                    return Some(v);
                },
                None => {},
            }
            i -= 1;
        }
        None
    }

    /// Opens a new, empty innermost scope.
    pub fn push_scope(&mut self)
        requires
            old(self).wf(),
        ensures
            final(self).same_target(old(self)),
            final(self).wf(),
            final(self).scopes_view() == push_scope_spec(old(self).scopes_view(), Map::empty()),
            final(self).rows_view() == old(self).rows_view(),
            final(self).current_row@ == old(self).current_row@,
    {
        self.scopes.push(StrMap::new());
        assert(self.scopes_view() =~= push_scope_spec(old(self).scopes_view(), Map::empty()));
    }

    /// Opens an innermost scope that binds the given variables (the columns
    /// of a dataset row, or a loop's `index` and `item`).
    pub fn push_row_scope(&mut self, row: &StrMap)
        requires
            old(self).wf(),
            row.wf(),
        ensures
            final(self).same_target(old(self)),
            final(self).wf(),
            final(self).scopes_view() == push_scope_spec(old(self).scopes_view(), row@),
            final(self).rows_view() == old(self).rows_view(),
            final(self).current_row@ == old(self).current_row@,
    {
        let copy = row.clone_map();
        self.scopes.push(copy);
        assert(self.scopes_view() =~= old(self).scopes_view().push(row@));
    }

    /// Closes the innermost scope; the global scope is never closed.
    pub fn pop_scope(&mut self)
        requires
            old(self).wf(),
        ensures
            final(self).same_target(old(self)),
            final(self).wf(),
            final(self).scopes_view() == pop_scope_spec(old(self).scopes_view()),
            final(self).rows_view() == old(self).rows_view(),
            final(self).current_row@ == old(self).current_row@,
    {
        if self.scopes.len() > 1 {
            self.scopes.pop();
            assert(self.scopes_view() =~= old(self).scopes_view().drop_last());
        }
    }

    /// Moves a non-empty current row into the dataset and starts a new row.
    pub fn push_current_row(&mut self)
        requires
            old(self).wf(),
        ensures
            final(self).same_target(old(self)),
            final(self).wf(),
            final(self).scopes_view() == old(self).scopes_view(),
            old(self).current_row@ == Map::<Seq<char>, Seq<char>>::empty() ==> {
                &&& final(self).rows_view() == old(self).rows_view()
                &&& final(self).current_row@ == old(self).current_row@
            },
            old(self).current_row@ != Map::<Seq<char>, Seq<char>>::empty() ==> {
                &&& final(self).rows_view() == old(self).rows_view().push(old(self).current_row@)
                &&& final(self).current_row@ == Map::<Seq<char>, Seq<char>>::empty()
            },
    {
        if !self.current_row.is_empty() {
            let row = self.current_row.clone_map();
            self.extracted_data.push(row);
            self.current_row.clear();
            assert(self.rows_view() =~= old(self).rows_view().push(old(self).current_row@));
        }
    }

    /// Records an extracted cell in the current row.
    pub fn put_in_row(&mut self, key: String, value: String)
        requires
            old(self).wf(),
        ensures
            final(self).same_target(old(self)),
            final(self).wf(),
            final(self).current_row@ == old(self).current_row@.insert(key@, value@),
            final(self).scopes_view() == old(self).scopes_view(),
            final(self).rows_view() == old(self).rows_view(),
    {
        self.current_row.insert(key, value);
    }
}

} // verus!
