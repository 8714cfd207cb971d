//! A map from names to values, kept as a list of entries.
//!
//! Where a name stands in more than one entry, the first entry counts. The
//! operations never make a second entry for a name, and `remove` takes out
//! every entry of a name, so the list always reads as a map.

use vstd::prelude::*;
use vstd::string::StringExecFns;

verus! {

/// One name with its value.
pub struct NameEntry<V> {
    pub name: String,
    pub value: V,
}

/// The map that a list of entries stands for.
pub open spec fn map_of<V>(entries: Seq<NameEntry<V>>) -> Map<Seq<char>, V>
    decreases entries.len(),
{
    if entries.len() == 0 {
        Map::empty()
    } else {
        let before = map_of(entries.drop_last());
        if before.contains_key(entries.last().name@) {
            before
        } else {
            before.insert(entries.last().name@, entries.last().value)
        }
    }
}

/// A name is in the map exactly if some entry has it, and its value is that
/// of the first such entry.
pub proof fn lemma_map_of_lookup<V>(entries: Seq<NameEntry<V>>, name: Seq<char>)
    ensures
        map_of(entries).contains_key(name) <==> exists|i: int|
            0 <= i < entries.len() && (#[trigger] entries[i]).name@ == name,
        forall|i: int|
            0 <= i < entries.len() && entries[i].name@ == name && (forall|j: int|
                0 <= j < i ==> (#[trigger] entries[j]).name@ != name) ==> map_of(entries)[name]
                == (#[trigger] entries[i]).value,
    decreases entries.len(),
{
    if entries.len() > 0 {
        let shorter = entries.drop_last();
        lemma_map_of_lookup(shorter, name);
        let last = entries.last();
        if map_of(entries).contains_key(name) {
            if map_of(shorter).contains_key(name) {
                let i = choose|i: int| 0 <= i < shorter.len() && (#[trigger] shorter[i]).name@ == name;
                assert(entries[i].name@ == name);
            } else {
                assert(entries[entries.len() - 1].name@ == name);
            }
        }
        if exists|i: int| 0 <= i < entries.len() && (#[trigger] entries[i]).name@ == name {
            let i = choose|i: int| 0 <= i < entries.len() && (#[trigger] entries[i]).name@ == name;
            if i < shorter.len() {
                assert(shorter[i].name@ == name);
            }
        }
        assert forall|i: int|
            0 <= i < entries.len() && entries[i].name@ == name && (forall|j: int|
                0 <= j < i ==> (#[trigger] entries[j]).name@ != name) implies map_of(
            entries,
        )[name] == (#[trigger] entries[i]).value by {
            if i < shorter.len() {
                assert(shorter[i].name@ == name);
                assert forall|j: int| 0 <= j < i implies (#[trigger] shorter[j]).name@ != name by {
                    assert(entries[j].name@ != name);
                }
            } else {
                if map_of(shorter).contains_key(name) {
                    let k = choose|k: int|
                        0 <= k < shorter.len() && (#[trigger] shorter[k]).name@ == name;
                    assert(entries[k].name@ == name);
                }
            }
        }
    }
}

/// Taking out an entry whose name stands in an earlier entry too, or
/// changing nothing but the entries of one name, leaves the rest of the map
/// as it was: two lists whose entries of other names agree, in order, stand
/// for maps that agree on every other name.
pub proof fn lemma_map_of_remove_entry<V>(entries: Seq<NameEntry<V>>, i: int, name: Seq<char>)
    requires
        0 <= i < entries.len(),
        entries[i].name@ == name,
    ensures
        map_of(entries.remove(i)).remove(name) == map_of(entries).remove(name),
    decreases entries.len(),
{
    let removed = entries.remove(i);
    if i == entries.len() - 1 {
        assert(removed =~= entries.drop_last());
        assert(map_of(removed).remove(name) =~= map_of(entries).remove(name));
    } else {
        let shorter = entries.drop_last();
        lemma_map_of_remove_entry(shorter, i, name);
        assert(removed.drop_last() =~= shorter.remove(i));
        assert(removed.last() == entries.last());
        let a = map_of(shorter.remove(i));
        let b = map_of(shorter);
        assert(a.remove(name) == b.remove(name));
        let last = entries.last();
        if last.name@ == name {
            assert(map_of(removed).remove(name) =~= a.remove(name));
            assert(map_of(entries).remove(name) =~= b.remove(name));
        } else {
            assert(a.contains_key(last.name@) == a.remove(name).contains_key(last.name@));
            assert(b.contains_key(last.name@) == b.remove(name).contains_key(last.name@));
            assert(map_of(removed).remove(name) =~= map_of(entries).remove(name)) by {
                assert forall|k: Seq<char>|
                    map_of(removed).remove(name).contains_key(k) == map_of(entries).remove(
                        name,
                    ).contains_key(k) by {
                    if k != name {
                        assert(a.contains_key(k) == a.remove(name).contains_key(k));
                        assert(b.contains_key(k) == b.remove(name).contains_key(k));
                    }
                }
                assert forall|k: Seq<char>| map_of(removed).remove(name).contains_key(k) implies map_of(
                    removed,
                ).remove(name)[k] == map_of(entries).remove(name)[k] by {
                    assert(a.remove(name).contains_key(k) ==> a.remove(name)[k] == b.remove(name)[k]);
                    if a.contains_key(k) {
                        assert(a.remove(name)[k] == a[k]);
                        assert(b.remove(name)[k] == b[k]);
                    }
                }
            }
        }
    }
}

/// Giving the first entry of a name a new value gives the name that value.
pub proof fn lemma_map_of_update<V>(entries: Seq<NameEntry<V>>, i: int, value: V)
    requires
        0 <= i < entries.len(),
        forall|j: int| 0 <= j < i ==> (#[trigger] entries[j]).name@ != entries[i].name@,
    ensures
        map_of(entries.update(i, NameEntry { name: entries[i].name, value })) == map_of(
            entries,
        ).insert(entries[i].name@, value),
    decreases entries.len(),
{
    let name = entries[i].name;
    let updated = entries.update(i, NameEntry { name, value });
    let shorter = entries.drop_last();
    if i == entries.len() - 1 {
        assert(updated.drop_last() =~= shorter);
        lemma_map_of_lookup(shorter, name@);
        assert(!map_of(shorter).contains_key(name@)) by {
            if map_of(shorter).contains_key(name@) {
                let k = choose|k: int| 0 <= k < shorter.len() && (#[trigger] shorter[k]).name@ == name@;
                assert(entries[k].name@ == name@);
            }
        }
        assert(map_of(updated) =~= map_of(entries).insert(name@, value));
    } else {
        lemma_map_of_update(shorter, i, value);
        assert(updated.drop_last() =~= shorter.update(i, NameEntry { name, value }));
        assert(updated.last() == entries.last());
        assert(map_of(updated) =~= map_of(entries).insert(name@, value));
    }
}

/// A map from names to values.
pub struct NameMap<V> {
    entries: Vec<NameEntry<V>>,
}

impl<V> View for NameMap<V> {
    type V = Map<Seq<char>, V>;

    closed spec fn view(&self) -> Map<Seq<char>, V> {
        map_of(self.entries@)
    }
}

impl<V> NameMap<V> {
    pub fn new() -> (m: Self)
        ensures
            m@ == Map::<Seq<char>, V>::empty(),
    {
        NameMap { entries: Vec::new() }
    }

    /// The entries, in the order in which their names came in.
    pub closed spec fn entries(&self) -> Seq<NameEntry<V>> {
        self.entries@
    }

    pub fn len(&self) -> (n: usize)
        ensures
            n == self.entries().len(),
    {
        self.entries.len()
    }

    /// The `i`-th entry.
    pub fn entry(&self, i: usize) -> (e: &NameEntry<V>)
        requires
            i < self.entries().len(),
        ensures
            *e == self.entries()[i as int],
    {
        &self.entries[i]
    }

    /// The place of the first entry with this name, if there is one.
    fn find(&self, name: &String) -> (found: Option<usize>)
        ensures
            match found {
                Some(i) => {
                    &&& i < self.entries@.len()
                    &&& self.entries@[i as int].name@ == name@
                    &&& forall|j: int| 0 <= j < i ==> (#[trigger] self.entries@[j]).name@ != name@
                    &&& self@.contains_key(name@)
                    &&& self@[name@] == self.entries@[i as int].value
                },
                None => {
                    &&& forall|j: int|
                        0 <= j < self.entries@.len() ==> (#[trigger] self.entries@[j]).name@
                            != name@
                    &&& !self@.contains_key(name@)
                },
            },
    {
        let len: usize = self.entries.len();
        let mut i: usize = 0;
        while i < len
            invariant
                len == self.entries@.len(),
                0 <= i <= len,
                forall|j: int| 0 <= j < i ==> (#[trigger] self.entries@[j]).name@ != name@,
            decreases len - i,
        {
            if self.entries[i].name == *name {
                proof {
                    lemma_map_of_lookup(self.entries@, name@);
                    assert(self.entries@[i as int].name@ == name@);
                }
                return Some(i);
            }
            i += 1;
        }
        proof {
            lemma_map_of_lookup(self.entries@, name@);
        }
        None
    }

    pub fn contains_key(&self, name: &str) -> (r: bool)
        ensures
            r == self@.contains_key(name@),
    {
        let key = String::from_str(name);
        self.find(&key).is_some()
    }

    pub fn get(&self, name: &str) -> (r: Option<&V>)
        ensures
            match r {
                Some(v) => self@.contains_key(name@) && *v == self@[name@],
                None => !self@.contains_key(name@),
            },
    {
        let key = String::from_str(name);
        match self.find(&key) {
            Some(i) => Some(&self.entries[i].value),
            None => None,
        }
    }

    /// Gives the name this value, in place of the one it had, if any.
    pub fn insert(&mut self, name: &str, value: V)
        ensures
            final(self)@ == old(self)@.insert(name@, value),
    {
        let key = String::from_str(name);
        match self.find(&key) {
            Some(i) => {
                proof {
                    lemma_map_of_update(self.entries@, i as int, value);
                }
                let ghost before = self.entries@;
                let old_entry = self.entries.remove(i);
                self.entries.insert(i, NameEntry { name: old_entry.name, value });
                assert(self.entries@ =~= before.update(
                    i as int,
                    NameEntry { name: before[i as int].name, value },
                ));
            },
            None => {
                let ghost before = self.entries@;
                self.entries.push(NameEntry { name: key, value });
                assert(self.entries@.drop_last() =~= before);
            },
        }
    }

    /// Takes the name out of the map. Says whether it was there.
    pub fn remove(&mut self, name: &str) -> (was_there: bool)
        ensures
            final(self)@ == old(self)@.remove(name@),
            was_there == old(self)@.contains_key(name@),
    {
        let key = String::from_str(name);
        let mut was_there: bool = false;
        let mut i: usize = 0;
        while i < self.entries.len()
            invariant
                0 <= i <= self.entries@.len(),
                key@ == name@,
                forall|j: int| 0 <= j < i ==> (#[trigger] self.entries@[j]).name@ != name@,
                map_of(self.entries@).remove(name@) == map_of(old(self).entries@).remove(name@),
                was_there ==> old(self)@.contains_key(name@),
                !was_there ==> self.entries@ == old(self).entries@,
            decreases self.entries@.len() - i,
        {
            if self.entries[i].name == key {
                proof {
                    lemma_map_of_remove_entry(self.entries@, i as int, name@);
                    if !was_there {
                        lemma_map_of_lookup(old(self).entries@, name@);
                        assert(old(self).entries@[i as int].name@ == name@);
                    }
                }
                self.entries.remove(i);
                was_there = true;
            } else {
                i += 1;
            }
        }
        proof {
            lemma_map_of_lookup(self.entries@, name@);
            assert(!map_of(self.entries@).contains_key(name@));
            assert(map_of(self.entries@) =~= map_of(self.entries@).remove(name@));
            if !was_there {
                assert(!old(self)@.contains_key(name@));
            }
        }
        was_there
    }
}

} // verus!
