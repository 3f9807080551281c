//! The table of loaded modules.

use rustpython_vm::PyObjectRef;
use vstd::prelude::*;

verus! {

/// The modules that have been loaded, by name.
///
/// A name occurs at most once. Loading a module under a name that is taken
/// replaces the module that was there. Nothing is ever removed.
///
/// The entries stand in a vector, not in a `HashMap<String, _>`: Verus
/// accepts such a map, but proves nothing of it. After one `insert` it can
/// show neither that the length is one nor that `get` under an equal name
/// finds anything. That a name occurs once is therefore the invariant of
/// this type, and every operation is proved against it.
pub struct ModuleRegistry {
    entries: Vec<(String, PyObjectRef)>,
}

/// Whether no two entries have the same name.
pub open spec fn distinct_names(entries: Seq<(String, PyObjectRef)>) -> bool {
    forall|i: int, j: int| 0 <= i < j < entries.len() ==> entries[i].0@ != entries[j].0@
}

/// Whether some entry is called `name`.
pub open spec fn names_hold(entries: Seq<(String, PyObjectRef)>, name: Seq<char>) -> bool {
    exists|i: int| 0 <= i < entries.len() && #[trigger] entries[i].0@ == name
}

/// The place of an entry called `name`.
pub open spec fn place_of(entries: Seq<(String, PyObjectRef)>, name: Seq<char>) -> int {
    choose|i: int| 0 <= i < entries.len() && #[trigger] entries[i].0@ == name
}

/// The mapping that the entries stand for.
pub open spec fn table_of(entries: Seq<(String, PyObjectRef)>) -> Map<Seq<char>, PyObjectRef> {
    Map::new(|name: Seq<char>| names_hold(entries, name), |name: Seq<char>| entries[place_of(entries, name)].1)
}

/// With distinct names, the entry at a place is the one the table holds
/// under its name.
proof fn lemma_table_at(entries: Seq<(String, PyObjectRef)>, i: int)
    requires
        distinct_names(entries),
        0 <= i < entries.len(),
    ensures
        names_hold(entries, entries[i].0@),
        table_of(entries).dom().contains(entries[i].0@),
        table_of(entries)[entries[i].0@] == entries[i].1,
{
    let name = entries[i].0@;
    assert(entries[i].0@ == name);
    let p = place_of(entries, name);
    assert(0 <= p < entries.len() && entries[p].0@ == name);
    if p < i {
        assert(entries[p].0@ != entries[i].0@);
    } else if i < p {
        assert(entries[i].0@ != entries[p].0@);
    }
}

/// Putting a new name at the end adds it to the table.
proof fn lemma_table_push(entries: Seq<(String, PyObjectRef)>, name: String, module: PyObjectRef)
    requires
        distinct_names(entries),
        !names_hold(entries, name@),
    ensures
        distinct_names(entries.push((name, module))),
        table_of(entries.push((name, module))) == table_of(entries).insert(name@, module),
{
    let after = entries.push((name, module));
    assert forall|i: int, j: int| 0 <= i < j < after.len() implies after[i].0@ != after[j].0@ by {
        if j == entries.len() {
            assert(entries[i].0@ != name@);
        }
    }
    let a = table_of(after);
    let b = table_of(entries).insert(name@, module);
    assert forall|k: Seq<char>| a.dom().contains(k) <==> b.dom().contains(k) by {
        if names_hold(after, k) {
            let p = place_of(after, k);
            if p < entries.len() {
                assert(entries[p].0@ == k);
            }
        }
        if names_hold(entries, k) {
            let p = place_of(entries, k);
            assert(after[p].0@ == k);
        }
        if k == name@ {
            assert(after[entries.len() as int].0@ == k);
        }
    }
    assert forall|k: Seq<char>| a.dom().contains(k) implies a[k] == b[k] by {
        let p = place_of(after, k);
        lemma_table_at(after, p);
        if p < entries.len() {
            lemma_table_at(entries, p);
        }
    }
    assert(a =~= b);
}

/// Replacing the entry at a place, under the same name, replaces the module
/// in the table.
proof fn lemma_table_update(entries: Seq<(String, PyObjectRef)>, i: int, name: String, module: PyObjectRef)
    requires
        distinct_names(entries),
        0 <= i < entries.len(),
        entries[i].0@ == name@,
    ensures
        distinct_names(entries.update(i, (name, module))),
        table_of(entries.update(i, (name, module))) == table_of(entries).insert(name@, module),
{
    let after = entries.update(i, (name, module));
    assert forall|x: int, y: int| 0 <= x < y < after.len() implies after[x].0@ != after[y].0@ by {
        assert(after[x].0@ == entries[x].0@);
        assert(after[y].0@ == entries[y].0@);
    }
    let a = table_of(after);
    let b = table_of(entries).insert(name@, module);
    assert forall|k: Seq<char>| a.dom().contains(k) <==> b.dom().contains(k) by {
        if names_hold(after, k) {
            let p = place_of(after, k);
            assert(entries[p].0@ == k);
        }
        if names_hold(entries, k) {
            let p = place_of(entries, k);
            assert(after[p].0@ == k);
        }
        if k == name@ {
            assert(after[i].0@ == k);
        }
    }
    assert forall|k: Seq<char>| a.dom().contains(k) implies a[k] == b[k] by {
        let p = place_of(after, k);
        lemma_table_at(after, p);
        if p != i {
            lemma_table_at(entries, p);
        }
    }
    assert(a =~= b);
}

impl View for ModuleRegistry {
    type V = Map<Seq<char>, PyObjectRef>;

    closed spec fn view(&self) -> Map<Seq<char>, PyObjectRef> {
        table_of(self.entries@)
    }
}

impl ModuleRegistry {
    #[verifier::type_invariant]
    spec fn names_are_distinct(self) -> bool {
        distinct_names(self.entries@)
    }

    /// A registry that holds no module.
    pub fn new() -> (r: Self)
        ensures
            r@ == Map::<Seq<char>, PyObjectRef>::empty(),
    {
        let r = ModuleRegistry { entries: Vec::new() };
        assert(r@ =~= Map::<Seq<char>, PyObjectRef>::empty());
        r
    }

    /// Where `name` stands among the entries, if it does.
    fn find(&self, name: &String) -> (r: Option<usize>)
        ensures
            match r {
                Some(i) => i < self.entries@.len() && self.entries@[i as int].0@ == name@,
                None => !names_hold(self.entries@, name@),
            },
    {
        let mut i: usize = 0;
        while i < self.entries.len()
            invariant
                i <= self.entries@.len(),
                forall|k: int| 0 <= k < i ==> self.entries@[k].0@ != name@,
            decreases self.entries@.len() - i,
        {
            if self.entries[i].0 == *name {
                return Some(i);
            }
            i += 1;
        }
        None
    }

    /// Whether a module is held under `name`.
    pub fn contains(&self, name: &String) -> (r: bool)
        ensures
            r == self@.dom().contains(name@),
    {
        self.find(name).is_some()
    }

    /// The module held under `name`.
    pub fn get(&self, name: &String) -> (r: Option<&PyObjectRef>)
        ensures
            match r {
                Some(module) => self@.dom().contains(name@) && self@[name@] == *module,
                None => !self@.dom().contains(name@),
            },
    {
        proof {
            use_type_invariant(self);
        }
        match self.find(name) {
            Some(i) => {
                proof {
                    lemma_table_at(self.entries@, i as int);
                }
                Some(&self.entries[i].1)
            },
            None => None,
        }
    }

    /// Puts `module` under `name`, in place of the module that was held
    /// under that name if there was one. Every other name keeps its module.
    pub fn insert(&mut self, name: String, module: PyObjectRef)
        ensures
            final(self)@ == old(self)@.insert(name@, module),
    {
        proof {
            use_type_invariant(&*self);
        }
        let found = self.find(&name);
        let mut entries: Vec<(String, PyObjectRef)> = Vec::new();
        core::mem::swap(&mut self.entries, &mut entries);
        match found {
            Some(i) => {
                proof {
                    lemma_table_update(entries@, i as int, name, module);
                }
                entries[i] = (name, module);
            },
            None => {
                proof {
                    lemma_table_push(entries@, name, module);
                }
                entries.push((name, module));
            },
        }
        self.entries = entries;
    }

    /// How many modules are held.
    pub fn len(&self) -> (r: usize)
        ensures
            r == self@.dom().len(),
            self@.dom().finite(),
    {
        proof {
            use_type_invariant(self);
            lemma_table_size(self.entries@);
        }
        self.entries.len()
    }
}

/// With distinct names, the table holds as many names as there are entries.
proof fn lemma_table_size(entries: Seq<(String, PyObjectRef)>)
    requires
        distinct_names(entries),
    ensures
        table_of(entries).dom().finite(),
        table_of(entries).dom().len() == entries.len(),
    decreases entries.len(),
{
    if entries.len() == 0 {
        assert(table_of(entries).dom() =~= Set::<Seq<char>>::empty());
    } else {
        let front = entries.drop_last();
        let last = entries.last();
        assert forall|i: int, j: int| 0 <= i < j < front.len() implies front[i].0@ != front[j].0@ by {
            assert(front[i] == entries[i]);
            assert(front[j] == entries[j]);
        }
        lemma_table_size(front);
        if names_hold(front, last.0@) {
            let p = place_of(front, last.0@);
            assert(entries[p].0@ != entries[entries.len() - 1].0@);
        }
        lemma_table_push(front, last.0, last.1);
        assert(front.push((last.0, last.1)) =~= entries);
    }
}

} // verus!
