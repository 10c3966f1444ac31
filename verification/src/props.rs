//! String-keyed property mapping with host-owned storage.  Keys are unique
//! and insertion order is preserved; equality and the codecs see the entries
//! in that order.

use vstd::prelude::*;

verus! {

/// Mathematical view of one property: key and value as character sequences.
pub type PropView = (Seq<char>, Seq<char>);

/// One named property.
#[derive(Debug, Clone)]
pub struct Property {
    pub key: String,
    pub value: String,
}

impl DeepView for Property {
    type V = PropView;

    open spec fn deep_view(&self) -> PropView {
        (self.key@, self.value@)
    }
}

/// A property mapping, stored as a key-unique association list.
#[derive(Debug, Clone)]
pub struct Properties {
    pub entries: Vec<Property>,
}

impl DeepView for Properties {
    type V = Seq<PropView>;

    open spec fn deep_view(&self) -> Seq<PropView> {
        self.entries.deep_view()
    }
}

/// Keys are pairwise distinct.
pub open spec fn props_wf(s: Seq<PropView>) -> bool {
    forall|i: int, j: int| #![trigger s[i], s[j]] 0 <= i < j < s.len() ==> s[i].0 != s[j].0
}

/// Value of the first entry whose key is `k`.
pub open spec fn spec_props_get(s: Seq<PropView>, k: Seq<char>) -> Option<Seq<char>>
    decreases s.len(),
{
    if s.len() == 0 {
        None
    } else if s[0].0 == k {
        Some(s[0].1)
    } else {
        spec_props_get(s.skip(1), k)
    }
}

/// Replace the value of the first entry whose key is `k`, or append a new
/// entry when no entry has that key.
pub open spec fn spec_props_insert(s: Seq<PropView>, k: Seq<char>, v: Seq<char>) -> Seq<PropView>
    decreases s.len(),
{
    if s.len() == 0 {
        seq![(k, v)]
    } else if s[0].0 == k {
        seq![(k, v)] + s.skip(1)
    } else {
        seq![s[0]] + spec_props_insert(s.skip(1), k, v)
    }
}

/// The keys of the entries, in order.
pub open spec fn spec_prop_keys(s: Seq<PropView>) -> Seq<Seq<char>> {
    Seq::new(s.len(), |i: int| s[i].0)
}

/// Insert every entry of `s` into `acc`, first to last.
pub open spec fn spec_props_insert_all(acc: Seq<PropView>, s: Seq<PropView>) -> Seq<PropView>
    decreases s.len(),
{
    if s.len() == 0 {
        acc
    } else {
        spec_props_insert_all(spec_props_insert(acc, s[0].0, s[0].1), s.skip(1))
    }
}

/// Inserting a key no entry has appends the pair.
pub proof fn lemma_props_insert_fresh(s: Seq<PropView>, k: Seq<char>, v: Seq<char>)
    requires
        forall|m: int| 0 <= m < s.len() ==> (#[trigger] s[m]).0 != k,
    ensures
        spec_props_insert(s, k, v) == s.push((k, v)),
    decreases s.len(),
{
    if s.len() == 0 {
        assert(spec_props_insert(s, k, v) =~= s.push((k, v)));
    } else {
        assert(s[0].0 != k);
        assert forall|m: int| 0 <= m < s.skip(1).len() implies (#[trigger] s.skip(1)[m]).0 != k by {
            assert(s.skip(1)[m] == s[m + 1]);
        }
        lemma_props_insert_fresh(s.skip(1), k, v);
        assert(spec_props_insert(s, k, v) =~= s.push((k, v)));
    }
}

/// Inserting a key whose first occurrence is at `i` updates that entry.
pub proof fn lemma_props_insert_found(s: Seq<PropView>, k: Seq<char>, v: Seq<char>, i: int)
    requires
        0 <= i < s.len(),
        s[i].0 == k,
        forall|m: int| 0 <= m < i ==> (#[trigger] s[m]).0 != k,
    ensures
        spec_props_insert(s, k, v) == s.update(i, (k, v)),
    decreases i,
{
    if i == 0 {
        assert(spec_props_insert(s, k, v) =~= s.update(0, (k, v)));
    } else {
        assert(s[0].0 != k);
        assert forall|m: int| 0 <= m < i - 1 implies (#[trigger] s.skip(1)[m]).0 != k by {
            assert(s.skip(1)[m] == s[m + 1]);
        }
        assert(s.skip(1)[i - 1] == s[i]);
        lemma_props_insert_found(s.skip(1), k, v, i - 1);
        assert(spec_props_insert(s, k, v) =~= s.update(i, (k, v)));
    }
}

/// A lookup of a key whose first occurrence is at `i` finds that value.
pub proof fn lemma_props_get_found(s: Seq<PropView>, k: Seq<char>, i: int)
    requires
        0 <= i < s.len(),
        s[i].0 == k,
        forall|m: int| 0 <= m < i ==> (#[trigger] s[m]).0 != k,
    ensures
        spec_props_get(s, k) == Some(s[i].1),
    decreases i,
{
    if i == 0 {
    } else {
        assert(s[0].0 != k);
        assert forall|m: int| 0 <= m < i - 1 implies (#[trigger] s.skip(1)[m]).0 != k by {
            assert(s.skip(1)[m] == s[m + 1]);
        }
        assert(s.skip(1)[i - 1] == s[i]);
        lemma_props_get_found(s.skip(1), k, i - 1);
    }
}

/// A lookup of a key no entry has finds nothing.
pub proof fn lemma_props_get_none(s: Seq<PropView>, k: Seq<char>)
    requires
        forall|m: int| 0 <= m < s.len() ==> (#[trigger] s[m]).0 != k,
    ensures
        spec_props_get(s, k) is None,
    decreases s.len(),
{
    if s.len() == 0 {
    } else {
        assert(s[0].0 != k);
        assert forall|m: int| 0 <= m < s.skip(1).len() implies (#[trigger] s.skip(1)[m]).0 != k by {
            assert(s.skip(1)[m] == s[m + 1]);
        }
        lemma_props_get_none(s.skip(1), k);
    }
}

/// With distinct keys, looking up the key of entry `i` finds its value.
pub proof fn lemma_props_get_of_index(s: Seq<PropView>, i: int)
    requires
        props_wf(s),
        0 <= i < s.len(),
    ensures
        spec_props_get(s, s[i].0) == Some(s[i].1),
{
    assert forall|m: int| 0 <= m < i implies (#[trigger] s[m]).0 != s[i].0 by {
        assert(s[m] == s[m]);
        assert(s[i] == s[i]);
    }
    lemma_props_get_found(s, s[i].0, i);
}

/// Inserting the entries of a key-distinct sequence into a prefix it extends
/// reproduces the whole sequence.
pub proof fn lemma_props_insert_all_of_wf(acc: Seq<PropView>, s: Seq<PropView>)
    requires
        props_wf(acc + s),
    ensures
        spec_props_insert_all(acc, s) == acc + s,
    decreases s.len(),
{
    if s.len() == 0 {
        assert(spec_props_insert_all(acc, s) =~= acc + s);
    } else {
        let whole = acc + s;
        let n = acc.len() as int;
        assert forall|m: int| 0 <= m < acc.len() implies (#[trigger] acc[m]).0 != s[0].0 by {
            assert(whole[m] == acc[m]);
            assert(whole[n] == s[0]);
        }
        lemma_props_insert_fresh(acc, s[0].0, s[0].1);
        assert((s[0].0, s[0].1) == s[0]);
        let acc2 = acc.push(s[0]);
        assert(acc2 + s.skip(1) =~= acc + s);
        lemma_props_insert_all_of_wf(acc2, s.skip(1));
    }
}

impl Properties {
    /// An empty mapping.
    pub fn new() -> (r: Properties)
        ensures
            r.deep_view() == Seq::<PropView>::empty(),
    {
        let r = Properties { entries: Vec::new() };
        proof {
            assert(r.deep_view() =~= Seq::<PropView>::empty());
        }
        r
    }

    /// Number of entries.
    pub fn len(&self) -> (r: usize)
        ensures
            r == self.deep_view().len(),
    {
        self.entries.len()
    }

    /// Value of the entry with key `key`, if any.
    pub fn get(&self, key: &String) -> (r: Option<&String>)
        ensures
            match r {
                Some(v) => spec_props_get(self.deep_view(), key@) == Some(v@),
                None => spec_props_get(self.deep_view(), key@) is None,
            },
    {
        let n = self.entries.len();
        let mut i: usize = 0;
        while i < n
            invariant
                n == self.entries.len(),
                i <= n,
                forall|m: int| 0 <= m < i ==> (#[trigger] self.deep_view()[m]).0 != key@,
            decreases n - i,
        {
            if self.entries[i].key.eq(key) {
                proof {
                    lemma_props_get_found(self.deep_view(), key@, i as int);
                }
                return Some(&self.entries[i].value);
            }
            i += 1;
        }
        proof {
            lemma_props_get_none(self.deep_view(), key@);
        }
        None
    }

    /// Set the value of `key`, replacing the value of an existing entry or
    /// appending a new one.
    pub fn insert(&mut self, key: String, value: String)
        ensures
            final(self).deep_view() == spec_props_insert(old(self).deep_view(), key@, value@),
    {
        let n = self.entries.len();
        let mut i: usize = 0;
        while i < n
            invariant
                *self == *old(self),
                n == self.entries.len(),
                i <= n,
                forall|m: int| 0 <= m < i ==> (#[trigger] self.deep_view()[m]).0 != key@,
            decreases n - i,
        {
            if self.entries[i].key.eq(&key) {
                proof {
                    lemma_props_insert_found(self.deep_view(), key@, value@, i as int);
                }
                let ghost before = self.deep_view();
                self.entries.remove(i);
                self.entries.insert(i, Property { key, value });
                proof {
                    assert(self.deep_view() =~= before.update(i as int, (key@, value@)));
                }
                return ;
            }
            i += 1;
        }
        proof {
            lemma_props_insert_fresh(self.deep_view(), key@, value@);
        }
        let ghost before = self.deep_view();
        self.entries.push(Property { key, value });
        proof {
            assert(self.deep_view() =~= before.push((key@, value@)));
        }
    }

    /// The keys of all entries, in order, as owned strings.
    pub fn keys(&self) -> (r: Vec<String>)
        ensures
            r.deep_view() == spec_prop_keys(self.deep_view()),
    {
        let n = self.entries.len();
        let mut r: Vec<String> = Vec::new();
        let mut i: usize = 0;
        while i < n
            invariant
                n == self.entries.len(),
                i <= n,
                r.deep_view() =~= spec_prop_keys(self.deep_view()).take(i as int),
            decreases n - i,
        {
            let k = self.entries[i].key.clone();
            let ghost prev = r.deep_view();
            r.push(k);
            proof {
                assert(r.deep_view() =~= prev.push(k@));
                assert(k@ == self.deep_view()[i as int].0);
                assert(r.deep_view() =~= spec_prop_keys(self.deep_view()).take(i as int + 1));
            }
            i += 1;
        }
        proof {
            assert(spec_prop_keys(self.deep_view()).take(n as int) =~= spec_prop_keys(
                self.deep_view(),
            ));
        }
        r
    }
}

impl PartialEq for Property {
    fn eq(&self, other: &Property) -> (r: bool) {
        self.key.eq(&other.key) && self.value.eq(&other.value)
    }
}

impl vstd::std_specs::cmp::PartialEqSpecImpl for Property {
    open spec fn obeys_eq_spec() -> bool {
        true
    }

    open spec fn eq_spec(&self, other: &Property) -> bool {
        self.deep_view() == other.deep_view()
    }
}

impl PartialEq for Properties {
    fn eq(&self, other: &Properties) -> (r: bool) {
        let n = self.entries.len();
        if n != other.entries.len() {
            proof {
                assert(self.deep_view().len() != other.deep_view().len());
            }
            return false;
        }
        let mut i: usize = 0;
        while i < n
            invariant
                n == self.entries.len(),
                n == other.entries.len(),
                i <= n,
                forall|m: int| 0 <= m < i ==> #[trigger] self.deep_view()[m]
                    == other.deep_view()[m],
            decreases n - i,
        {
            if !self.entries[i].key.eq(&other.entries[i].key) {
                proof {
                    assert(self.deep_view()[i as int].0 != other.deep_view()[i as int].0);
                    assert(self.deep_view()[i as int] != other.deep_view()[i as int]);
                }
                return false;
            }
            if !self.entries[i].value.eq(&other.entries[i].value) {
                proof {
                    assert(self.deep_view()[i as int].1 != other.deep_view()[i as int].1);
                    assert(self.deep_view()[i as int] != other.deep_view()[i as int]);
                }
                return false;
            }
            i += 1;
        }
        proof {
            assert(self.deep_view() =~= other.deep_view());
        }
        true
    }
}

impl vstd::std_specs::cmp::PartialEqSpecImpl for Properties {
    open spec fn obeys_eq_spec() -> bool {
        true
    }

    open spec fn eq_spec(&self, other: &Properties) -> bool {
        self.deep_view() == other.deep_view()
    }
}

impl crate::elide::HasCanonicalDefault for Properties {
    open spec fn canonical_default_view() -> Seq<PropView> {
        Seq::empty()
    }

    fn eq_canonical_default(&self) -> (r: bool) {
        let r = self.entries.len() == 0;
        proof {
            if self.entries@.len() == 0 {
                assert(self.deep_view() =~= Seq::<PropView>::empty());
            } else {
                assert(self.deep_view().len() != 0);
            }
        }
        r
    }
}

} // verus!
