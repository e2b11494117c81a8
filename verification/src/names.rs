//! A small mapping from names to values, kept in the order the names came.

use vstd::prelude::*;
use crate::text::same_text;

verus! {

struct Entry<V> {
    name: String,
    value: V,
}

/// A mapping from names to values in which every name stands once.
pub struct NameMap<V> {
    entries: Vec<Entry<V>>,
}

spec fn names_of<V>(entries: Seq<Entry<V>>) -> Seq<Seq<char>> {
    entries.map_values(|e: Entry<V>| e.name@)
}

spec fn position<V>(entries: Seq<Entry<V>>, name: Seq<char>) -> int {
    names_of(entries).index_of(name)
}

spec fn values_of<V>(entries: Seq<Entry<V>>) -> Map<Seq<char>, V> {
    Map::new(
        |t: Seq<char>| names_of(entries).contains(t),
        |t: Seq<char>| entries[position(entries, t)].value,
    )
}

proof fn lemma_position<V>(entries: Seq<Entry<V>>, i: int)
    requires
        names_of(entries).no_duplicates(),
        0 <= i < entries.len(),
    ensures
        names_of(entries).contains(entries[i].name@),
        position(entries, entries[i].name@) == i,
        values_of(entries)[entries[i].name@] == entries[i].value,
{
    let ts = names_of(entries);
    assert(ts[i] == entries[i].name@);
    let p = position(entries, entries[i].name@);
    assert(0 <= p < ts.len() && ts[p] == entries[i].name@);
}

proof fn lemma_pushed<V>(entries: Seq<Entry<V>>, e: Entry<V>)
    requires
        names_of(entries).no_duplicates(),
        !names_of(entries).contains(e.name@),
    ensures
        names_of(entries.push(e)).no_duplicates(),
        values_of(entries.push(e)) == values_of(entries).insert(e.name@, e.value),
{
    let after = entries.push(e);
    let ts = names_of(entries);
    let ta = names_of(after);
    assert(ta =~= ts.push(e.name@));
    assert forall|i: int, j: int| 0 <= i < ta.len() && 0 <= j < ta.len() && i != j implies ta[i]
        != ta[j] by {
        if i < ts.len() {
            assert(ts[i] == ta[i]);
        }
        if j < ts.len() {
            assert(ts[j] == ta[j]);
        }
    }
    assert forall|t: Seq<char>| #[trigger]
        values_of(after).contains_key(t) <==> values_of(entries).insert(
            e.name@,
            e.value,
        ).contains_key(t) by {
        if ta.contains(t) {
            let k = choose|k: int| 0 <= k < ta.len() && ta[k] == t;
            if k < ts.len() {
                assert(ts[k] == t);
            }
        }
        if ts.contains(t) {
            let k = choose|k: int| 0 <= k < ts.len() && ts[k] == t;
            assert(ta[k] == t);
        }
        if t == e.name@ {
            assert(ta[ts.len() as int] == t);
        }
    }
    assert forall|t: Seq<char>| #[trigger] values_of(after).contains_key(t) implies values_of(
        after,
    )[t] == values_of(entries).insert(e.name@, e.value)[t] by {
        let k = choose|k: int| 0 <= k < ta.len() && ta[k] == t;
        lemma_position(after, k);
        if k < ts.len() {
            assert(ts[k] == t);
            lemma_position(entries, k);
        }
    }
    assert(values_of(after) =~= values_of(entries).insert(e.name@, e.value));
}

proof fn lemma_removed<V>(entries: Seq<Entry<V>>, i: int)
    requires
        names_of(entries).no_duplicates(),
        0 <= i < entries.len(),
    ensures
        names_of(entries.remove(i)).no_duplicates(),
        !names_of(entries.remove(i)).contains(entries[i].name@),
        values_of(entries.remove(i)) == values_of(entries).remove(entries[i].name@),
{
    let after = entries.remove(i);
    let ts = names_of(entries);
    let ta = names_of(after);
    let gone = entries[i].name@;
    assert(ts[i] == gone);
    assert forall|k: int| 0 <= k < ta.len() implies #[trigger] ta[k] == ts[if k < i {
        k
    } else {
        k + 1
    }] by {}
    assert forall|a: int, b: int| 0 <= a < ta.len() && 0 <= b < ta.len() && a != b implies ta[a]
        != ta[b] by {
        let a2 = if a < i { a } else { a + 1 };
        let b2 = if b < i { b } else { b + 1 };
        assert(ta[a] == ts[a2] && ta[b] == ts[b2]);
    }
    if ta.contains(gone) {
        let k = choose|k: int| 0 <= k < ta.len() && ta[k] == gone;
        let k2 = if k < i { k } else { k + 1 };
        assert(ta[k] == ts[k2]);
        assert(false);
    }
    assert forall|t: Seq<char>| #[trigger]
        values_of(after).contains_key(t) <==> values_of(entries).remove(gone).contains_key(t) by {
        if ta.contains(t) {
            let k = choose|k: int| 0 <= k < ta.len() && ta[k] == t;
            let k2 = if k < i { k } else { k + 1 };
            assert(ta[k] == ts[k2]);
        }
        if ts.contains(t) && t != gone {
            let k = choose|k: int| 0 <= k < ts.len() && ts[k] == t;
            let k2 = if k < i { k } else { k - 1 };
            assert(ta[k2] == t);
        }
    }
    assert forall|t: Seq<char>| #[trigger] values_of(after).contains_key(t) implies values_of(
        after,
    )[t] == values_of(entries).remove(gone)[t] by {
        let k = choose|k: int| 0 <= k < ta.len() && ta[k] == t;
        let k2 = if k < i { k } else { k + 1 };
        assert(ta[k] == ts[k2]);
        lemma_position(after, k);
        lemma_position(entries, k2);
    }
    assert(values_of(after) =~= values_of(entries).remove(gone));
}

impl<V> NameMap<V> {
    #[verifier::type_invariant]
    spec fn distinct(self) -> bool {
        names_of(self.entries@).no_duplicates()
    }

    /// The names that have a value, in the order they came.
    pub closed spec fn names(&self) -> Seq<Seq<char>> {
        names_of(self.entries@)
    }

    /// The mapping.
    pub closed spec fn view(&self) -> Map<Seq<char>, V> {
        values_of(self.entries@)
    }

    /// The names of the mapping are exactly the names kept.
    pub proof fn lemma_names(&self)
        ensures
            self@.dom() == self.names().to_set(),
    {
        assert(self@.dom() =~= self.names().to_set());
    }

    /// A mapping without names.
    pub fn new() -> (map: Self)
        ensures
            map@ == Map::<Seq<char>, V>::empty(),
            map.names().no_duplicates(),
    {
        let map = NameMap { entries: Vec::new() };
        assert(map@ =~= Map::<Seq<char>, V>::empty());
        map
    }

    /// No name stands twice. There is nothing to do at run time: this only
    /// hands the fact to the caller's proof.
    pub fn names_are_distinct(&self)
        ensures
            self.names().no_duplicates(),
    {
        proof {
            use_type_invariant(&*self);
        }
    }

    /// The number of names.
    pub fn len(&self) -> (n: usize)
        ensures
            n == self.names().len(),
            n == self@.dom().len(),
            self@.dom().finite(),
            self.names().no_duplicates(),
    {
        proof {
            use_type_invariant(&*self);
            let ts = names_of(self.entries@);
            ts.unique_seq_to_set();
            assert(self@.dom() =~= ts.to_set());
        }
        self.entries.len()
    }

    fn find(&self, name: &str) -> (at: Option<usize>)
        ensures
            match at {
                Some(i) => i < self.entries.len() && self.entries[i as int].name@ == name@,
                None => !names_of(self.entries@).contains(name@),
            },
    {
        let mut i: usize = 0;
        while i < self.entries.len()
            invariant
                i <= self.entries.len(),
                forall|k: int| 0 <= k < i ==> self.entries[k].name@ != name@,
            decreases self.entries.len() - i,
        {
            if same_text(self.entries[i].name.as_str(), name) {
                return Some(i);
            }
            i += 1;
        }
        proof {
            let ts = names_of(self.entries@);
            if ts.contains(name@) {
                let k = choose|k: int| 0 <= k < ts.len() && ts[k] == name@;
                assert(self.entries[k].name@ == name@);
            }
        }
        None
    }

    /// The value of `name`, if it has one.
    pub fn get(&self, name: &str) -> (value: Option<&V>)
        ensures
            match value {
                Some(v) => self@.contains_key(name@) && self@[name@] == *v,
                None => !self@.contains_key(name@),
            },
    {
        proof {
            use_type_invariant(&*self);
        }
        match self.find(name) {
            Some(i) => {
                proof {
                    lemma_position(self.entries@, i as int);
                }
                Some(&self.entries[i].value)
            },
            None => None,
        }
    }

    /// Gives `name` the value `value` and hands out the value it had.
    pub fn insert(&mut self, name: &str, value: V) -> (before: Option<V>)
        ensures
            final(self)@ == old(self)@.insert(name@, value),
            match before {
                Some(v) => old(self)@.contains_key(name@) && old(self)@[name@] == v,
                None => !old(self)@.contains_key(name@),
            },
            final(self).names().no_duplicates(),
    {
        proof {
            use_type_invariant(&*self);
        }
        let at = self.find(name);
        let mut entries: Vec<Entry<V>> = Vec::new();
        let ghost start = self.entries@;
        std::mem::swap(&mut entries, &mut self.entries);
        let before = match at {
            Some(i) => {
                proof {
                    lemma_position(start, i as int);
                    lemma_removed(start, i as int);
                }
                let gone = entries.remove(i);
                Some(gone.value)
            },
            None => None,
        };
        let entry = Entry { name: name.to_owned(), value };
        proof {
            lemma_pushed(entries@, entry);
            assert(values_of(start).remove(name@).insert(name@, value) =~= values_of(start).insert(
                name@,
                value,
            ));
        }
        entries.push(entry);
        self.entries = entries;
        before
    }

    /// Takes `name` out of the mapping and hands out the value it had.
    pub fn remove(&mut self, name: &str) -> (before: Option<V>)
        ensures
            final(self)@ == old(self)@.remove(name@),
            match before {
                Some(v) => old(self)@.contains_key(name@) && old(self)@[name@] == v,
                None => !old(self)@.contains_key(name@),
            },
            final(self).names().no_duplicates(),
    {
        proof {
            use_type_invariant(&*self);
        }
        match self.find(name) {
            Some(i) => {
                let mut entries: Vec<Entry<V>> = Vec::new();
                proof {
                    lemma_position(self.entries@, i as int);
                    lemma_removed(self.entries@, i as int);
                }
                std::mem::swap(&mut entries, &mut self.entries);
                let gone = entries.remove(i);
                self.entries = entries;
                Some(gone.value)
            },
            None => {
                assert(self@ =~= self@.remove(name@));
                None
            },
        }
    }
}

} // verus!
