//! The configuration document model.
//!
//! A document is an ordered mapping from string keys to values; a value is a
//! string, a boolean, an unsigned number, a sequence, or a nested mapping.
//! The mathematical meaning of a mapping is a `Map` from key characters to
//! abstract values; key order is kept in the executable representation and
//! exposed through [`ConfMap::keys`].

use vstd::prelude::*;

verus! {

/// The mathematical value of one configuration node.
#[verifier::ext_equal]
pub ghost enum ValView {
    Str(Seq<char>),
    Bool(bool),
    Num(u64),
    List(Seq<ValView>),
    M(Map<Seq<char>, ValView>),
}

/// One node of a configuration document.
pub enum ConfValue {
    Str(String),
    Bool(bool),
    Num(u64),
    List(Vec<ConfValue>),
    Dict(ConfMap),
}

/// An ordered mapping from string keys to configuration nodes.
pub struct ConfMap {
    pub entries: Vec<(String, ConfValue)>,
}

/// The abstract value of a configuration node.
pub open spec fn val_view(v: ConfValue) -> ValView
    decreases v,
{
    match v {
        ConfValue::Str(s) => ValView::Str(s@),
        ConfValue::Bool(b) => ValView::Bool(b),
        ConfValue::Num(n) => ValView::Num(n),
        ConfValue::List(vs) => ValView::List(list_view(vs@)),
        ConfValue::Dict(m) => ValView::M(entries_view(m.entries@)),
    }
}

/// The abstract values of a sequence of nodes, in order.
pub open spec fn list_view(s: Seq<ConfValue>) -> Seq<ValView>
    decreases s,
{
    if s.len() == 0 {
        Seq::empty()
    } else {
        list_view(s.drop_last()).push(val_view(s.last()))
    }
}

/// The mapping denoted by a sequence of key/value entries; a later entry
/// with the same key wins.
pub open spec fn entries_view(s: Seq<(String, ConfValue)>) -> Map<Seq<char>, ValView>
    decreases s,
{
    if s.len() == 0 {
        Map::empty()
    } else {
        entries_view(s.drop_last()).insert(s.last().0@, val_view(s.last().1))
    }
}

/// The keys of a sequence of entries, in order.
pub open spec fn keys_of(s: Seq<(String, ConfValue)>) -> Seq<Seq<char>> {
    s.map(|i: int, e: (String, ConfValue)| e.0@)
}

/// The position of the first entry holding a key, or -1 where none does.
pub open spec fn entry_index(s: Seq<(String, ConfValue)>, k: Seq<char>) -> int
    decreases s.len(),
{
    if s.len() == 0 {
        -1
    } else if s[0].0@ == k {
        0
    } else {
        let rest = entry_index(s.subrange(1, s.len() as int), k);
        if rest < 0 {
            -1
        } else {
            rest + 1
        }
    }
}

/// What the first-entry position means: it lands on the key where any
/// entry holds it, and under unique keys it is the only such position.
pub proof fn lemma_entry_index(s: Seq<(String, ConfValue)>, k: Seq<char>)
    ensures
        entry_index(s, k) >= 0 <==> exists|j: int| 0 <= j < s.len() && (#[trigger] s[j]).0@ == k,
        entry_index(s, k) >= 0 ==> 0 <= entry_index(s, k) < s.len() && s[entry_index(s, k)].0@
            == k,
        unique_keys(s) ==> forall|j: int|
            0 <= j < s.len() && (#[trigger] s[j]).0@ == k ==> j == entry_index(s, k),
    decreases s.len(),
{
    if s.len() > 0 && s[0].0@ != k {
        let rest = s.subrange(1, s.len() as int);
        lemma_entry_index(rest, k);
        assert(forall|j: int| 0 <= j < rest.len() ==> (#[trigger] rest[j]) == s[j + 1]);
        if exists|j: int| 0 <= j < s.len() && (#[trigger] s[j]).0@ == k {
            let j = choose|j: int| 0 <= j < s.len() && (#[trigger] s[j]).0@ == k;
            assert(j >= 1);
            assert(rest[j - 1].0@ == k);
        }
        if unique_keys(s) {
            assert(unique_keys(rest)) by {
                assert(forall|a: int, b: int|
                    0 <= a < b < rest.len() ==> (#[trigger] rest[a]).0@ == s[a + 1].0@ && (
                    #[trigger] rest[b]).0@ == s[b + 1].0@);
            }
        }
    }
}

/// No two entries share a key.
pub open spec fn unique_keys(s: Seq<(String, ConfValue)>) -> bool {
    forall|i: int, j: int| 0 <= i < j < s.len() ==> s[i].0@ != s[j].0@
}

impl ConfValue {
    /// Every mapping reachable from this node has pairwise distinct keys.
    pub open spec fn wf(self) -> bool
        decreases self,
    {
        match self {
            ConfValue::List(vs) => forall|i: int|
                0 <= i < vs@.len() ==> (#[trigger] vs@[i]).wf(),
            ConfValue::Dict(m) => m.wf(),
            _ => true,
        }
    }
}

impl ConfMap {
    /// Keys are pairwise distinct, here and in every nested mapping.
    pub open spec fn wf(self) -> bool
        decreases self,
    {
        unique_keys(self.entries@) && forall|i: int|
            0 <= i < self.entries@.len() ==> (#[trigger] self.entries@[i]).1.wf()
    }

    /// The keys of this mapping, in insertion order.
    pub open spec fn keys(self) -> Seq<Seq<char>> {
        keys_of(self.entries@)
    }
}

impl View for ConfValue {
    type V = ValView;

    open spec fn view(&self) -> ValView {
        val_view(*self)
    }
}

impl View for ConfMap {
    type V = Map<Seq<char>, ValView>;

    open spec fn view(&self) -> Map<Seq<char>, ValView> {
        entries_view(self.entries@)
    }
}

/// Membership in the denoted mapping is membership among the entry keys.
pub proof fn lemma_entries_view_contains(s: Seq<(String, ConfValue)>, k: Seq<char>)
    ensures
        entries_view(s).contains_key(k) <==> exists|i: int| 0 <= i < s.len() && (#[trigger] s[i]).0@ == k,
    decreases s.len(),
{
    if s.len() > 0 {
        lemma_entries_view_contains(s.drop_last(), k);
        if s.last().0@ == k {
            assert(s[s.len() - 1].0@ == k);
        } else {
            if entries_view(s).contains_key(k) {
                let i = choose|i: int| 0 <= i < s.drop_last().len() && (#[trigger] s.drop_last()[i]).0@ == k;
                assert(s[i].0@ == k);
            }
            if exists|i: int| 0 <= i < s.len() && (#[trigger] s[i]).0@ == k {
                let i = choose|i: int| 0 <= i < s.len() && (#[trigger] s[i]).0@ == k;
                assert(i < s.len() - 1);
                assert(s.drop_last()[i].0@ == k);
            }
        }
    }
}

/// Under unique keys, the denoted mapping takes each entry to its value.
pub proof fn lemma_entries_view_at(s: Seq<(String, ConfValue)>, i: int)
    requires
        unique_keys(s),
        0 <= i < s.len(),
    ensures
        entries_view(s).contains_key(s[i].0@),
        entries_view(s)[s[i].0@] == val_view(s[i].1),
    decreases s.len(),
{
    if i == s.len() - 1 {
    } else {
        assert(unique_keys(s.drop_last())) by {
            assert(forall|a: int, b: int|
                0 <= a < b < s.drop_last().len() ==> s.drop_last()[a] == s[a] && s.drop_last()[b] == s[b]);
        }
        assert(s.drop_last()[i] == s[i]);
        lemma_entries_view_at(s.drop_last(), i);
        assert(s[i].0@ != s.last().0@);
    }
}

/// Appending a fresh entry inserts its key into the denoted mapping.
pub proof fn lemma_entries_view_push(s: Seq<(String, ConfValue)>, k: String, v: ConfValue)
    ensures
        entries_view(s.push((k, v))) == entries_view(s).insert(k@, val_view(v)),
{
    let t = s.push((k, v));
    assert(t.drop_last() =~= s);
    assert(t.last() == (k, v));
}

/// Replacing the entry that holds a key updates the denoted mapping at
/// that key alone.
pub proof fn lemma_entries_view_update(s: Seq<(String, ConfValue)>, i: int, k: String, v: ConfValue)
    requires
        unique_keys(s),
        0 <= i < s.len(),
        s[i].0@ == k@,
    ensures
        entries_view(s.update(i, (k, v))) == entries_view(s).insert(k@, val_view(v)),
    decreases s.len(),
{
    let t = s.update(i, (k, v));
    if i == s.len() - 1 {
        assert(t.drop_last() =~= s.drop_last());
        assert(t.last() == (k, v));
        assert(entries_view(t) =~= entries_view(s).insert(k@, val_view(v)));
    } else {
        assert(unique_keys(s.drop_last())) by {
            assert(forall|a: int, b: int|
                0 <= a < b < s.drop_last().len() ==> s.drop_last()[a] == s[a] && s.drop_last()[b] == s[b]);
        }
        assert(s.drop_last()[i] == s[i]);
        lemma_entries_view_update(s.drop_last(), i, k, v);
        assert(t.drop_last() =~= s.drop_last().update(i, (k, v)));
        assert(t.last() == s.last());
        assert(s.last().0@ != k@);
        assert(entries_view(t) =~= entries_view(s).insert(k@, val_view(v)));
    }
}

/// Entries equal in view denote the same mapping.
pub proof fn lemma_entries_view_congruent(s1: Seq<(String, ConfValue)>, s2: Seq<(String, ConfValue)>)
    requires
        s1.len() == s2.len(),
        forall|i: int| 0 <= i < s1.len() ==> (#[trigger] s1[i]).0@ == s2[i].0@ && val_view(s1[i].1) == val_view(s2[i].1),
    ensures
        entries_view(s1) == entries_view(s2),
    decreases s1.len(),
{
    if s1.len() > 0 {
        assert(forall|i: int| 0 <= i < s1.drop_last().len() ==> (#[trigger] s1.drop_last()[i]) == s1[i]);
        assert(forall|i: int| 0 <= i < s2.drop_last().len() ==> (#[trigger] s2.drop_last()[i]) == s2[i]);
        lemma_entries_view_congruent(s1.drop_last(), s2.drop_last());
        assert(s1.last() == s1[s1.len() - 1]);
        assert(s2.last() == s2[s1.len() - 1]);
    }
}

impl ConfMap {
    /// An empty mapping.
    pub fn new() -> (r: ConfMap)
        ensures
            r@ == Map::<Seq<char>, ValView>::empty(),
            r.keys() == Seq::<Seq<char>>::empty(),
            r.wf(),
    {
        let r = ConfMap { entries: Vec::new() };
        proof {
            assert(r.keys() =~= Seq::<Seq<char>>::empty());
        }
        r
    }

    /// The number of entries.
    pub fn len(&self) -> (r: usize)
        ensures
            r == self.keys().len(),
    {
        self.entries.len()
    }

    /// The key of the entry at a position.
    pub fn key_at(&self, i: usize) -> (r: &String)
        requires
            i < self.keys().len(),
        ensures
            r@ == self.keys()[i as int],
    {
        &self.entries[i].0
    }

    /// The value of the entry at a position.
    pub fn val_at(&self, i: usize) -> (r: &ConfValue)
        requires
            self.wf(),
            i < self.keys().len(),
        ensures
            self@.contains_key(self.keys()[i as int]),
            r@ == self@[self.keys()[i as int]],
            r.wf(),
    {
        proof {
            lemma_entries_view_at(self.entries@, i as int);
        }
        &self.entries[i].1
    }

    /// Whether a key is present.
    pub fn contains_key(&self, key: &str) -> (r: bool)
        ensures
            r == self@.contains_key(key@),
    {
        let n = self.entries.len();
        let mut i: usize = 0;
        while i < n
            invariant
                n == self.entries@.len(),
                i <= n,
                forall|j: int| 0 <= j < i ==> (#[trigger] self.entries@[j]).0@ != key@,
            decreases n - i,
        {
            if crate::strutil::str_eq(self.entries[i].0.as_str(), key) {
                proof {
                    lemma_entries_view_contains(self.entries@, key@);
                    assert((self.entries@[i as int]).0@ == key@);
                }
                return true;
            }
            i = i + 1;
        }
        proof {
            lemma_entries_view_contains(self.entries@, key@);
        }
        false
    }

    /// The value a key maps to, if the key is present.
    pub fn get(&self, key: &str) -> (r: Option<&ConfValue>)
        requires
            self.wf(),
        ensures
            match r {
                Option::Some(v) => self@.contains_key(key@) && v@ == self@[key@] && v.wf()
                    && (exists|j: int|
                    0 <= j < self.entries@.len() && (#[trigger] self.entries@[j]).0@ == key@
                        && self.entries@[j].1 == *v),
                Option::None => !self@.contains_key(key@),
            },
    {
        let n = self.entries.len();
        let mut i: usize = 0;
        while i < n
            invariant
                self.wf(),
                n == self.entries@.len(),
                i <= n,
                forall|j: int| 0 <= j < i ==> (#[trigger] self.entries@[j]).0@ != key@,
            decreases n - i,
        {
            if crate::strutil::str_eq(self.entries[i].0.as_str(), key) {
                proof {
                    lemma_entries_view_contains(self.entries@, key@);
                    assert((self.entries@[i as int]).0@ == key@);
                    lemma_entries_view_at(self.entries@, i as int);
                }
                return Some(&self.entries[i].1);
            }
            i = i + 1;
        }
        proof {
            lemma_entries_view_contains(self.entries@, key@);
        }
        None
    }

    /// Bind a key to a value: an existing entry is replaced in place, a new
    /// key is appended at the end.
    pub fn insert(&mut self, key: String, value: ConfValue)
        requires
            old(self).wf(),
            value.wf(),
        ensures
            final(self).wf(),
            final(self)@ == old(self)@.insert(key@, value@),
            final(self).keys() == if old(self)@.contains_key(key@) {
                old(self).keys()
            } else {
                old(self).keys().push(key@)
            },
    {
        let n = self.entries.len();
        let mut i: usize = 0;
        while i < n
            invariant
                self == old(self),
                old(self).wf(),
                value.wf(),
                n == self.entries@.len(),
                i <= n,
                forall|j: int| 0 <= j < i ==> (#[trigger] self.entries@[j]).0@ != key@,
            decreases n - i,
        {
            if crate::strutil::str_eq(self.entries[i].0.as_str(), key.as_str()) {
                proof {
                    lemma_entries_view_contains(self.entries@, key@);
                    assert((self.entries@[i as int]).0@ == key@);
                    lemma_entries_view_update(self.entries@, i as int, key, value);
                }
                let ghost old_entries = self.entries@;
                self.entries[i] = (key, value);
                proof {
                    assert(self.entries@ =~= old_entries.update(i as int, (key, value)));
                    assert(self@ == old(self)@.insert(key@, value@));
                    assert forall|a: int, b: int| 0 <= a < b < self.entries@.len()
                        implies (#[trigger] self.entries@[a]).0@ != (#[trigger] self.entries@[b]).0@ by {
                        assert((old_entries[a]).0@ != (old_entries[b]).0@);
                        assert(self.entries@[a].0@ == old_entries[a].0@);
                        assert(self.entries@[b].0@ == old_entries[b].0@);
                    }
                    assert forall|j: int| 0 <= j < self.entries@.len()
                        implies (#[trigger] self.entries@[j]).1.wf() by {
                        if j != i as int {
                            assert(self.entries@[j] == old_entries[j]);
                        }
                    }
                    assert(self.wf());
                    assert(self.keys() =~= old(self).keys()) by {
                        assert(forall|j: int| 0 <= j < self.entries@.len() ==> (#[trigger] self.entries@[j]).0@ == old_entries[j].0@);
                    }
                }
                return;
            }
            i = i + 1;
        }
        proof {
            lemma_entries_view_contains(self.entries@, key@);
            lemma_entries_view_push(self.entries@, key, value);
        }
        let ghost old_entries = self.entries@;
        self.entries.push((key, value));
        proof {
            assert(self.entries@ =~= old_entries.push((key, value)));
            assert(self@ == old(self)@.insert(key@, value@));
            assert forall|a: int, b: int| 0 <= a < b < self.entries@.len()
                implies (#[trigger] self.entries@[a]).0@ != (#[trigger] self.entries@[b]).0@ by {
                if b < self.entries@.len() - 1 {
                    assert((old_entries[a]).0@ != (old_entries[b]).0@);
                } else {
                    assert(self.entries@[b].0@ == key@);
                    assert((old_entries[a]).0@ != key@);
                }
            }
            assert forall|j: int| 0 <= j < self.entries@.len()
                implies (#[trigger] self.entries@[j]).1.wf() by {
                if j < self.entries@.len() - 1 {
                    assert(self.entries@[j] == old_entries[j]);
                }
            }
            assert(self.wf());
            assert(self.keys() =~= old(self).keys().push(key@));
        }
    }
}

impl Clone for ConfValue {
    /// A structural copy: same abstract value, well-formedness kept.
    fn clone(&self) -> (r: Self)
        ensures
            r@ == self@,
            self.wf() ==> r.wf(),
        decreases self,
    {
        match self {
            ConfValue::Str(s) => ConfValue::Str(s.clone()),
            ConfValue::Bool(b) => ConfValue::Bool(*b),
            ConfValue::Num(n) => ConfValue::Num(*n),
            ConfValue::List(vs) => {
                let n = vs.len();
                let mut out: Vec<ConfValue> = Vec::new();
                let mut i: usize = 0;
                while i < n
                    invariant
                        *self == ConfValue::List(*vs),
                        n == vs@.len(),
                        i <= n,
                        out@.len() == i,
                        forall|j: int| 0 <= j < i ==> val_view(#[trigger] out@[j]) == val_view(vs@[j])
                            && (vs@[j].wf() ==> out@[j].wf()),
                    decreases n - i,
                {
                    proof {
                        assert(*vs == self->List_0);
                        assert(decreases_to!(*self => self->List_0));
                        assert(decreases_to!(*vs => vs@));
                        assert(decreases_to!(vs@ => vs@[i as int]));
                    }
                    out.push(vs[i].clone());
                    i = i + 1;
                }
                proof {
                    lemma_list_view_congruent(out@, vs@);
                }
                ConfValue::List(out)
            }
            ConfValue::Dict(m) => ConfValue::Dict(m.clone()),
        }
    }
}

/// A sequence of nodes and its value sequence have the same length.
pub proof fn lemma_list_view_len(s: Seq<ConfValue>)
    ensures
        list_view(s).len() == s.len(),
    decreases s.len(),
{
    if s.len() > 0 {
        lemma_list_view_len(s.drop_last());
    }
}

/// The value sequence of a sequence of nodes is their values, pointwise.
pub proof fn lemma_list_view_at(s: Seq<ConfValue>, i: int)
    requires
        0 <= i < s.len(),
    ensures
        list_view(s).len() == s.len(),
        list_view(s)[i] == val_view(s[i]),
    decreases s.len(),
{
    lemma_list_view_len(s);
    if i < s.len() - 1 {
        lemma_list_view_at(s.drop_last(), i);
        assert(s.drop_last()[i] == s[i]);
    } else {
        lemma_list_view_len(s.drop_last());
    }
}

/// Node sequences equal in view denote the same value sequence.
pub proof fn lemma_list_view_congruent(s1: Seq<ConfValue>, s2: Seq<ConfValue>)
    requires
        s1.len() == s2.len(),
        forall|i: int| 0 <= i < s1.len() ==> val_view(#[trigger] s1[i]) == val_view(s2[i]),
    ensures
        list_view(s1) == list_view(s2),
    decreases s1.len(),
{
    if s1.len() > 0 {
        assert(forall|i: int| 0 <= i < s1.drop_last().len() ==> (#[trigger] s1.drop_last()[i]) == s1[i]);
        assert(forall|i: int| 0 <= i < s2.drop_last().len() ==> (#[trigger] s2.drop_last()[i]) == s2[i]);
        lemma_list_view_congruent(s1.drop_last(), s2.drop_last());
        assert(s1.last() == s1[s1.len() - 1]);
        assert(s2.last() == s2[s1.len() - 1]);
    }
}

impl Clone for ConfMap {
    /// A structural copy: same abstract mapping, same key order,
    /// well-formedness kept.
    fn clone(&self) -> (r: Self)
        ensures
            r@ == self@,
            r.keys() == self.keys(),
            self.wf() ==> r.wf(),
        decreases self,
    {
        let n = self.entries.len();
        let mut out: Vec<(String, ConfValue)> = Vec::new();
        let mut i: usize = 0;
        while i < n
            invariant
                n == self.entries@.len(),
                i <= n,
                out@.len() == i,
                forall|j: int| 0 <= j < i ==> (#[trigger] out@[j]).0@ == self.entries@[j].0@
                    && val_view(out@[j].1) == val_view(self.entries@[j].1)
                    && (self.entries@[j].1.wf() ==> out@[j].1.wf()),
            decreases n - i,
        {
            proof {
                assert(decreases_to!(*self => self.entries));
                assert(decreases_to!(self.entries => self.entries@));
                assert(decreases_to!(self.entries@ => self.entries@[i as int]));
                assert(decreases_to!(self.entries@[i as int] => self.entries@[i as int].1));
            }
            let e = &self.entries[i];
            out.push((e.0.clone(), e.1.clone()));
            i = i + 1;
        }
        let r = ConfMap { entries: out };
        proof {
            lemma_entries_view_congruent(r.entries@, self.entries@);
            assert(r.keys() =~= self.keys());
        }
        r
    }
}

} // verus!
