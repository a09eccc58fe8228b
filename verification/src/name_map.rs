//! A table of values keyed by name, which keeps its entries in the order in
//! which their names were first inserted.

use crate::text::str_eq;
use vstd::prelude::*;
use vstd::string::*;

verus! {

/// The mapping that a list of named entries denotes: each name maps to the
/// value of the first entry that carries it.
pub open spec fn assoc_map<V>(entries: Seq<(Seq<char>, V)>) -> Map<Seq<char>, V>
    decreases entries.len(),
{
    if entries.len() == 0 {
        Map::empty()
    } else {
        assoc_map(entries.drop_first()).insert(entries[0].0, entries[0].1)
    }
}

/// Whether no two entries carry the same name.
pub open spec fn names_distinct<V>(entries: Seq<(Seq<char>, V)>) -> bool {
    forall|i: int, j: int|
        0 <= i < entries.len() && 0 <= j < entries.len() && i != j ==> (#[trigger] entries[i]).0 != (
        #[trigger] entries[j]).0
}

/// Whether no entry before position `i` carries `name`.
pub open spec fn absent_before<V>(entries: Seq<(Seq<char>, V)>, name: Seq<char>, i: int) -> bool {
    forall|j: int| 0 <= j < i && j < entries.len() ==> (#[trigger] entries[j]).0 != name
}

/// The position of the first entry that carries `name`, or the number of
/// entries where none does.
pub open spec fn position_of<V>(entries: Seq<(Seq<char>, V)>, name: Seq<char>) -> int
    decreases entries.len(),
{
    if entries.len() == 0 {
        0
    } else if entries[0].0 == name {
        0
    } else {
        1 + position_of(entries.drop_first(), name)
    }
}

/// The first entry that carries a name is at the name's position.
pub proof fn lemma_position_of<V>(entries: Seq<(Seq<char>, V)>, name: Seq<char>, i: int)
    requires
        0 <= i <= entries.len(),
        absent_before(entries, name, i),
        i < entries.len() ==> entries[i].0 == name,
    ensures
        position_of(entries, name) == i,
    decreases entries.len(),
{
    if i > 0 {
        let rest = entries.drop_first();
        lemma_position_of(rest, name, i - 1);
    }
}

/// A name that no entry carries is not mapped.
pub proof fn lemma_assoc_map_absent<V>(entries: Seq<(Seq<char>, V)>, name: Seq<char>)
    requires
        absent_before(entries, name, entries.len() as int),
    ensures
        !assoc_map(entries).contains_key(name),
    decreases entries.len(),
{
    if entries.len() > 0 {
        let rest = entries.drop_first();
        lemma_assoc_map_absent(rest, name);
    }
}

/// A name is mapped to the value of the first entry that carries it.
pub proof fn lemma_assoc_map_first<V>(entries: Seq<(Seq<char>, V)>, i: int)
    requires
        0 <= i < entries.len(),
        absent_before(entries, entries[i].0, i),
    ensures
        assoc_map(entries).contains_key(entries[i].0),
        assoc_map(entries)[entries[i].0] == entries[i].1,
    decreases entries.len(),
{
    if i > 0 {
        let rest = entries.drop_first();
        lemma_assoc_map_first(rest, i - 1);
    }
}

/// Replacing the value of the first entry that carries a name changes the
/// mapping at that name alone.
pub proof fn lemma_assoc_map_update<V>(entries: Seq<(Seq<char>, V)>, i: int, value: V)
    requires
        0 <= i < entries.len(),
        absent_before(entries, entries[i].0, i),
    ensures
        assoc_map(entries.update(i, (entries[i].0, value))) == assoc_map(entries).insert(
            entries[i].0,
            value,
        ),
    decreases entries.len(),
{
    let name = entries[i].0;
    let updated = entries.update(i, (name, value));
    let rest = entries.drop_first();
    if i == 0 {
        assert(updated.drop_first() =~= rest);
    } else {
        lemma_assoc_map_update(rest, i - 1, value);
        assert(updated.drop_first() =~= rest.update(i - 1, (name, value)));
    }
}

/// Appending an entry under a name that no entry carries adds that name to
/// the mapping and changes nothing else.
pub proof fn lemma_assoc_map_push<V>(entries: Seq<(Seq<char>, V)>, name: Seq<char>, value: V)
    requires
        absent_before(entries, name, entries.len() as int),
    ensures
        assoc_map(entries.push((name, value))) == assoc_map(entries).insert(name, value),
    decreases entries.len(),
{
    let pushed = entries.push((name, value));
    if entries.len() == 0 {
        assert(pushed.drop_first() =~= entries);
    } else {
        let rest = entries.drop_first();
        lemma_assoc_map_push(rest, name, value);
        assert(pushed.drop_first() =~= rest.push((name, value)));
    }
}

/// A table of values keyed by name. A table that is built by insertion alone
/// holds no name twice, and its entries stay in the order in which their
/// names were first inserted.
#[derive(Debug)]
pub struct NameMap<V> {
    entries: Vec<(String, V)>,
}

impl<V> View for NameMap<V> {
    type V = Map<Seq<char>, V>;

    /// The table as a mapping from names to values.
    open spec fn view(&self) -> Map<Seq<char>, V> {
        assoc_map(self.entries())
    }
}

impl<V> NameMap<V> {
    /// The entries of the table, in order, each as a name and a value.
    pub closed spec fn entries(&self) -> Seq<(Seq<char>, V)> {
        Seq::new(self.entries@.len(), |i: int| (self.entries@[i].0@, self.entries@[i].1))
    }

    /// Whether no name occurs twice in the table.
    pub open spec fn distinct(&self) -> bool {
        names_distinct(self.entries())
    }

    /// An empty table.
    pub fn new() -> (table: NameMap<V>)
        ensures
            table.entries() == Seq::<(Seq<char>, V)>::empty(),
            table@ == Map::<Seq<char>, V>::empty(),
            table.distinct(),
    {
        let table = NameMap { entries: Vec::new() };
        table
    }

    /// The number of entries.
    pub fn len(&self) -> (n: usize)
        ensures
            n == self.entries().len(),
    {
        self.entries.len()
    }

    /// Whether the table has no entries.
    pub fn is_empty(&self) -> (empty: bool)
        ensures
            empty == (self.entries().len() == 0),
            empty == (self@ == Map::<Seq<char>, V>::empty()),
    {
        proof {
            if self.entries().len() > 0 {
                assert(self@.contains_key(self.entries()[0].0));
            }
        }
        self.entries.len() == 0
    }

    /// The name of the entry at position `i`.
    pub fn name_at(&self, i: usize) -> (name: &String)
        requires
            i < self.entries().len(),
        ensures
            name@ == self.entries()[i as int].0,
    {
        &self.entries[i].0
    }

    /// The value of the entry at position `i`.
    pub fn value_at(&self, i: usize) -> (value: &V)
        requires
            i < self.entries().len(),
        ensures
            *value == self.entries()[i as int].1,
    {
        &self.entries[i].1
    }

    /// The position of the first entry named `name`, if there is one.
    fn position(&self, name: &str) -> (at: Option<usize>)
        ensures
            match at {
                Some(i) => {
                    &&& i < self.entries().len()
                    &&& self.entries()[i as int].0 == name@
                    &&& absent_before(self.entries(), name@, i as int)
                },
                None => absent_before(self.entries(), name@, self.entries().len() as int),
            },
    {
        let mut i: usize = 0;
        while i < self.entries.len()
            invariant
                i <= self.entries@.len(),
                absent_before(self.entries(), name@, i as int),
            decreases self.entries@.len() - i,
        {
            if str_eq(self.entries[i].0.as_str(), name) {
                return Some(i);
            }
            i += 1;
        }
        None
    }

    /// Whether the table has an entry named `name`.
    pub fn contains_key(&self, name: &str) -> (found: bool)
        ensures
            found == self@.contains_key(name@),
    {
        let at = self.position(name);
        proof {
            match at {
                Some(i) => lemma_assoc_map_first(self.entries(), i as int),
                None => lemma_assoc_map_absent(self.entries(), name@),
            }
        }
        at.is_some()
    }

    /// The value of the entry named `name`, if there is one.
    pub fn get(&self, name: &str) -> (value: Option<&V>)
        ensures
            match value {
                Some(v) => self@.contains_key(name@) && self@[name@] == *v,
                None => !self@.contains_key(name@),
            },
    {
        match self.position(name) {
            Some(i) => {
                proof {
                    lemma_assoc_map_first(self.entries(), i as int);
                }
                Some(&self.entries[i].1)
            },
            None => {
                proof {
                    lemma_assoc_map_absent(self.entries(), name@);
                }
                None
            },
        }
    }

    /// Maps `name` to `value`. A name that the table already has keeps its
    /// place and gets the new value; a new name goes to the end.
    pub fn insert(&mut self, name: String, value: V)
        ensures
            final(self)@ == old(self)@.insert(name@, value),
            final(self).entries() == if old(self)@.contains_key(name@) {
                old(self).entries().update(
                    position_of(old(self).entries(), name@),
                    (name@, value),
                )
            } else {
                old(self).entries().push((name@, value))
            },
            old(self).distinct() ==> final(self).distinct(),
    {
        let ghost before = self.entries();
        match self.position(name.as_str()) {
            Some(i) => {
                proof {
                    lemma_assoc_map_first(before, i as int);
                    lemma_assoc_map_update(before, i as int, value);
                    lemma_position_of(before, name@, i as int);
                }
                self.entries.set(i, (name, value));
                assert(self.entries() =~= before.update(i as int, (name@, value)));
            },
            None => {
                proof {
                    lemma_assoc_map_absent(before, name@);
                    lemma_assoc_map_push(before, name@, value);
                }
                self.entries.push((name, value));
                assert(self.entries() =~= before.push((name@, value)));
            },
        }
    }
}

} // verus!
