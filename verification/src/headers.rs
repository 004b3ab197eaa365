//! An insertion-ordered map of header names to header values.

use vstd::prelude::*;

use crate::text::{same_text, text_pairs};

verus! {

/// No two entries share a name.
pub open spec fn names_distinct(entries: Seq<(Seq<char>, Seq<char>)>) -> bool {
    forall|i: int, j: int|
        0 <= i < entries.len() && 0 <= j < entries.len() && i != j ==> #[trigger] entries[i].0
            != #[trigger] entries[j].0
}

/// `entries` holds an entry named `name`.
pub open spec fn has_name(entries: Seq<(Seq<char>, Seq<char>)>, name: Seq<char>) -> bool {
    exists|i: int| 0 <= i < entries.len() && #[trigger] entries[i].0 == name
}

/// Position of the entry named `name` (meaningful when `has_name` holds).
pub open spec fn name_position(entries: Seq<(Seq<char>, Seq<char>)>, name: Seq<char>) -> int {
    choose|i: int| 0 <= i < entries.len() && #[trigger] entries[i].0 == name
}

/// The entries after setting `name` to `value`: an existing entry of that
/// name keeps its place and takes the new value; otherwise the entry is
/// appended.
pub open spec fn with_entry(
    entries: Seq<(Seq<char>, Seq<char>)>,
    name: Seq<char>,
    value: Seq<char>,
) -> Seq<(Seq<char>, Seq<char>)> {
    if has_name(entries, name) {
        entries.update(name_position(entries, name), (name, value))
    } else {
        entries.push((name, value))
    }
}

/// The value stored under `name`, if any.
pub open spec fn value_of(entries: Seq<(Seq<char>, Seq<char>)>, name: Seq<char>) -> Option<
    Seq<char>,
> {
    if has_name(entries, name) {
        Some(entries[name_position(entries, name)].1)
    } else {
        None
    }
}

/// Setting a name keeps the names distinct, makes the name map to the new
/// value, and leaves every other name's value as it was.
pub proof fn lemma_with_entry(
    entries: Seq<(Seq<char>, Seq<char>)>,
    name: Seq<char>,
    value: Seq<char>,
)
    requires
        names_distinct(entries),
    ensures
        names_distinct(with_entry(entries, name, value)),
        value_of(with_entry(entries, name, value), name) == Some(value),
        forall|other: Seq<char>|
            other != name ==> value_of(with_entry(entries, name, value), other) == value_of(
                entries,
                other,
            ),
{
    let r = with_entry(entries, name, value);
    if has_name(entries, name) {
        let p = name_position(entries, name);
        assert(r[p].0 == name);
        assert forall|other: Seq<char>| other != name implies value_of(r, other) == value_of(
            entries,
            other,
        ) by {
            if has_name(entries, other) {
                let q = name_position(entries, other);
                assert(r[q].0 == other);
                assert(has_name(r, other));
                let q2 = name_position(r, other);
                assert(q2 == q);
            } else {
                if has_name(r, other) {
                    let q2 = name_position(r, other);
                    assert(entries[q2].0 == other);
                }
            }
        }
        assert(has_name(r, name));
    } else {
        let n = entries.len() as int;
        assert(r[n].0 == name);
        assert(has_name(r, name));
        assert forall|other: Seq<char>| other != name implies value_of(r, other) == value_of(
            entries,
            other,
        ) by {
            if has_name(entries, other) {
                let q = name_position(entries, other);
                assert(r[q].0 == other);
                assert(has_name(r, other));
            } else {
                if has_name(r, other) {
                    let q2 = name_position(r, other);
                    assert(entries[q2].0 == other);
                }
            }
        }
    }
}

/// Header names and values, in the order in which names were first set.
/// Setting a name that is already present replaces its value.
#[derive(Debug)]
pub struct HeaderMap {
    entries: Vec<(String, String)>,
}

impl View for HeaderMap {
    type V = Seq<(Seq<char>, Seq<char>)>;

    closed spec fn view(&self) -> Seq<(Seq<char>, Seq<char>)> {
        text_pairs(self.entries@)
    }
}

impl HeaderMap {
    #[verifier::type_invariant]
    spec fn wf(&self) -> bool {
        names_distinct(self@)
    }

    /// No two entries of a map share a name (a call gives the fact to a
    /// caller; it does nothing at run time).
    pub fn assert_names_distinct(&self)
        ensures
            names_distinct(self@),
    {
        proof {
            use_type_invariant(self);
        }
    }

    /// An empty map.
    pub fn new() -> (m: HeaderMap)
        ensures
            m@ == Seq::<(Seq<char>, Seq<char>)>::empty(),
    {
        let m = HeaderMap { entries: Vec::new() };
        assert(m@ =~= Seq::<(Seq<char>, Seq<char>)>::empty());
        m
    }

    /// Number of entries.
    pub fn len(&self) -> (n: usize)
        ensures
            n == self@.len(),
    {
        self.entries.len()
    }

    /// Whether the map has no entry.
    pub fn is_empty(&self) -> (b: bool)
        ensures
            b == (self@.len() == 0),
    {
        self.entries.len() == 0
    }

    /// Set `name` to `value`.
    pub fn insert(&mut self, name: String, value: String)
        ensures
            final(self)@ == with_entry(old(self)@, name@, value@),
    {
        proof {
            use_type_invariant(&*self);
        }
        let ghost before = self@;
        let mut entries: Vec<(String, String)> = Vec::new();
        std::mem::swap(&mut entries, &mut self.entries);
        assert(text_pairs(entries@) == before);
        let n = entries.len();
        let mut i: usize = 0;
        while i < n
            invariant
                n == entries@.len(),
                i <= n,
                text_pairs(entries@) == before,
                names_distinct(before),
                before == old(self)@,
                forall|j: int| 0 <= j < i ==> before[j].0 != name@,
            decreases n - i,
        {
            if entries[i].0 == name {
                proof {
                    assert(before[i as int].0 == name@);
                    assert(has_name(before, name@));
                    let p = name_position(before, name@);
                    assert(p == i);
                    lemma_with_entry(before, name@, value@);
                }
                let ghost target = with_entry(before, name@, value@);
                let ghost old_entries = entries@;
                entries[i] = (name, value);
                assert(entries@ == old_entries.update(i as int, (name, value)));
                assert(text_pairs(entries@) =~= target);
                self.entries = entries;
                return ;
            }
            i = i + 1;
        }
        proof {
            assert(!has_name(before, name@));
            lemma_with_entry(before, name@, value@);
        }
        let ghost target = with_entry(before, name@, value@);
        entries.push((name, value));
        assert(text_pairs(entries@) =~= target);
        self.entries = entries;
    }

    /// The value stored under `name`, if any.
    pub fn get(&self, name: &str) -> (v: Option<&String>)
        ensures
            v is Some <==> value_of(self@, name@) is Some,
            v is Some ==> v.unwrap()@ == value_of(self@, name@).unwrap(),
    {
        proof {
            use_type_invariant(self);
        }
        let n = self.entries.len();
        let mut i: usize = 0;
        while i < n
            invariant
                n == self@.len(),
                i <= n,
                names_distinct(self@),
                forall|j: int| 0 <= j < i ==> self@[j].0 != name@,
            decreases n - i,
        {
            if same_text(self.entries[i].0.as_str(), name) {
                proof {
                    assert(self@[i as int].0 == name@);
                    assert(has_name(self@, name@));
                    assert(name_position(self@, name@) == i);
                }
                return Some(&self.entries[i].1);
            }
            i = i + 1;
        }
        None
    }

    /// A copy of the entries, in order.
    pub fn to_vec(&self) -> (v: Vec<(String, String)>)
        ensures
            text_pairs(v@) == self@,
    {
        let n = self.entries.len();
        let mut v: Vec<(String, String)> = Vec::new();
        let mut i: usize = 0;
        while i < n
            invariant
                n == self@.len(),
                i <= n,
                text_pairs(v@) == self@.take(i as int),
                v@.len() == i,
            decreases n - i,
        {
            let name = self.entries[i].0.clone();
            let value = self.entries[i].1.clone();
            let ghost before = v@;
            v.push((name, value));
            assert(v@ == before.push((name, value)));
            assert(self@[i as int] == (name@, value@));
            assert forall|j: int| 0 <= j < i implies #[trigger] text_pairs(v@)[j] == self@[j] by {
                assert(v@[j] == before[j]);
                assert(text_pairs(before)[j] == self@.take(i as int)[j]);
            }
            i = i + 1;
            assert(text_pairs(v@) =~= self@.take(i as int));
        }
        assert(self@.take(n as int) =~= self@);
        v
    }
}

impl Clone for HeaderMap {
    fn clone(&self) -> (m: Self)
        ensures
            m@ == self@,
    {
        proof {
            use_type_invariant(self);
        }
        HeaderMap { entries: self.to_vec() }
    }
}

} // verus!
