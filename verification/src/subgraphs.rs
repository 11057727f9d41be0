//! The subgraphs of a running session.
use vstd::prelude::*;

verus! {

/// One subgraph: its schema, and what else is known of it.
#[derive(Debug)]
pub struct SubgraphSchema<R> {
    pub name: String,
    pub sdl: String,
    pub rest: R,
}

/// What is held of the subgraph of a name.
pub struct SubgraphView<R> {
    pub sdl: Seq<char>,
    pub rest: R,
}

impl<R> View for SubgraphSchema<R> {
    type V = SubgraphView<R>;

    open spec fn view(&self) -> SubgraphView<R> {
        SubgraphView { sdl: self.sdl@, rest: self.rest }
    }
}

/// The schemas of subgraphs by name, with what else is known of the subgraphs. Each name occurs
/// once.
#[derive(Debug)]
pub struct SubgraphSchemas<R> {
    entries: Vec<SubgraphSchema<R>>,
}

/// Whether no two of the entries have the same name.
spec fn has_unique_names<R>(entries: Seq<SubgraphSchema<R>>) -> bool {
    forall|i: int, j: int|
        0 <= i < j < entries.len() ==> #[trigger] entries[i].name@ != #[trigger] entries[j].name@
}

/// Whether an entry has this name.
spec fn has_name<R>(entries: Seq<SubgraphSchema<R>>, name: Seq<char>) -> bool {
    exists|i: int| 0 <= i < entries.len() && #[trigger] entries[i].name@ == name
}

/// Where the entry with this name stands.
spec fn position<R>(entries: Seq<SubgraphSchema<R>>, name: Seq<char>) -> int {
    choose|i: int| 0 <= i < entries.len() && #[trigger] entries[i].name@ == name
}

/// The subgraphs of entries by name.
spec fn schemas_of<R>(entries: Seq<SubgraphSchema<R>>) -> Map<Seq<char>, SubgraphView<R>> {
    Map::new(
        |name: Seq<char>| has_name(entries, name),
        |name: Seq<char>| entries[position(entries, name)]@,
    )
}

impl<R> View for SubgraphSchemas<R> {
    type V = Map<Seq<char>, SubgraphView<R>>;

    closed spec fn view(&self) -> Map<Seq<char>, SubgraphView<R>> {
        schemas_of(self.entries@)
    }
}

impl<R> SubgraphSchemas<R> {
    #[verifier::type_invariant]
    spec fn well_formed(self) -> bool {
        has_unique_names(self.entries@)
    }

    /// No subgraphs.
    pub fn new() -> (r: Self)
        ensures
            r@ == Map::<Seq<char>, SubgraphView<R>>::empty(),
    {
        let r = SubgraphSchemas { entries: Vec::new() };
        assert(r@ =~= Map::<Seq<char>, SubgraphView<R>>::empty());
        r
    }

    /// Finds the entry with a name.
    fn find(&self, name: &String) -> (r: Option<usize>)
        ensures
            match r {
                Some(i) => i < self.entries@.len() && self.entries@[i as int].name@ == name@
                    && position(self.entries@, name@) == i,
                None => !has_name(self.entries@, name@),
            },
    {
        proof {
            use_type_invariant(self);
        }
        let mut i: usize = 0;
        while i < self.entries.len()
            invariant
                has_unique_names(self.entries@),
                i <= self.entries@.len(),
                forall|k: int| 0 <= k < i ==> #[trigger] self.entries@[k].name@ != name@,
            decreases self.entries@.len() - i,
        {
            if self.entries[i].name == *name {
                proof {
                    assert(has_name(self.entries@, name@));
                    let p = position(self.entries@, name@);
                    assert(self.entries@[p].name@ == self.entries@[i as int].name@);
                }
                return Some(i);
            }
            i = i + 1;
        }
        None
    }

    /// The subgraph of a name, if it is there.
    pub fn get(&self, name: &String) -> (r: Option<&SubgraphSchema<R>>)
        ensures
            match r {
                Some(entry) => {
                    &&& self@.contains_key(name@)
                    &&& self@[name@] == entry@
                    &&& entry.name@ == name@
                },
                None => !self@.contains_key(name@),
            },
    {
        match self.find(name) {
            Some(i) => Some(&self.entries[i]),
            None => None,
        }
    }

    /// Puts a subgraph in the place of the one of its name, or adds it if there is none.
    pub fn insert(&mut self, entry: SubgraphSchema<R>)
        ensures
            final(self)@ == old(self)@.insert(entry.name@, entry@),
    {
        proof {
            use_type_invariant(&*self);
        }
        let found = self.find(&entry.name);
        let ghost before = self.entries@;
        let mut entries: Vec<SubgraphSchema<R>> = Vec::new();
        std::mem::swap(&mut entries, &mut self.entries);
        match found {
            Some(i) => {
                entries.set(i, entry);
                proof {
                    lemma_set(before, i as int, entry);
                }
            },
            None => {
                entries.push(entry);
                proof {
                    lemma_push(before, entry);
                }
            },
        }
        self.entries = entries;
    }

    /// Gives a subgraph another schema and leaves the rest of it as it is. Where there is no such
    /// subgraph nothing changes.
    pub fn set_sdl(&mut self, name: &String, sdl: String)
        ensures
            final(self)@ == if old(self)@.contains_key(name@) {
                old(self)@.insert(
                    name@,
                    SubgraphView { sdl: sdl@, rest: old(self)@[name@].rest },
                )
            } else {
                old(self)@
            },
    {
        proof {
            use_type_invariant(&*self);
        }
        if let Some(i) = self.find(name) {
            let ghost before = self.entries@;
            let mut entries: Vec<SubgraphSchema<R>> = Vec::new();
            std::mem::swap(&mut entries, &mut self.entries);
            entries[i].sdl = sdl;
            proof {
                assert(entries@ =~= before.update(i as int, entries@[i as int]));
                lemma_set(before, i as int, entries@[i as int]);
            }
            self.entries = entries;
        }
    }
}

/// Replacing the entry of a name by one of the same name changes the subgraph of that name only.
proof fn lemma_set<R>(entries: Seq<SubgraphSchema<R>>, i: int, entry: SubgraphSchema<R>)
    requires
        has_unique_names(entries),
        0 <= i < entries.len(),
        entries[i].name@ == entry.name@,
    ensures
        has_unique_names(entries.update(i, entry)),
        schemas_of(entries.update(i, entry)) == schemas_of(entries).insert(entry.name@, entry@),
{
    let after = entries.update(i, entry);
    assert forall|a: int, b: int| 0 <= a < b < after.len() implies #[trigger] after[a].name@
        != #[trigger] after[b].name@ by {
        assert(entries[a].name@ != entries[b].name@);
    }
    assert forall|k: int| 0 <= k < after.len() implies #[trigger] after[k].name@
        == entries[k].name@ by {}
    assert forall|name: Seq<char>| #[trigger] has_name(after, name) == (has_name(entries, name)
        || name == entry.name@) by {
        if has_name(after, name) {
            let k = position(after, name);
            assert(entries[k].name@ == name);
        }
        if has_name(entries, name) {
            let k = position(entries, name);
            assert(after[k].name@ == name);
        }
        assert(after[i].name@ == entry.name@);
    }
    assert forall|name: Seq<char>| #[trigger] has_name(after, name) implies after[position(
        after,
        name,
    )]@ == schemas_of(entries).insert(entry.name@, entry@)[name] by {
        let k = position(after, name);
        assert(after[k].name@ == name);
        assert(entries[k].name@ == name);
        assert(has_name(entries, name));
        let q = position(entries, name);
        assert(entries[q].name@ == name);
        assert(q == k);
        if name == entry.name@ {
            assert(after[i].name@ == name);
            assert(k == i);
        }
    }
    assert(schemas_of(after) =~= schemas_of(entries).insert(entry.name@, entry@));
}

/// Adding an entry with a new name adds its subgraph.
proof fn lemma_push<R>(entries: Seq<SubgraphSchema<R>>, entry: SubgraphSchema<R>)
    requires
        has_unique_names(entries),
        !has_name(entries, entry.name@),
    ensures
        has_unique_names(entries.push(entry)),
        schemas_of(entries.push(entry)) == schemas_of(entries).insert(entry.name@, entry@),
{
    let after = entries.push(entry);
    let last = entries.len() as int;
    assert forall|a: int, b: int| 0 <= a < b < after.len() implies #[trigger] after[a].name@
        != #[trigger] after[b].name@ by {
        assert(entries[a].name@ == after[a].name@);
        if b < last {
            assert(entries[b].name@ == after[b].name@);
        }
    }
    assert forall|name: Seq<char>| #[trigger] has_name(after, name) == (has_name(entries, name)
        || name == entry.name@) by {
        if has_name(after, name) {
            let k = position(after, name);
            if k < last {
                assert(entries[k].name@ == name);
            }
        }
        if has_name(entries, name) {
            let k = position(entries, name);
            assert(after[k].name@ == name);
        }
        assert(after[last].name@ == entry.name@);
    }
    assert forall|name: Seq<char>| #[trigger] has_name(after, name) implies after[position(
        after,
        name,
    )]@ == schemas_of(entries).insert(entry.name@, entry@)[name] by {
        let k = position(after, name);
        assert(after[k].name@ == name);
        if k < last {
            assert(entries[k].name@ == name);
            let q = position(entries, name);
            assert(entries[q].name@ == name);
            assert(q == k);
        }
    }
    assert(schemas_of(after) =~= schemas_of(entries).insert(entry.name@, entry@));
}

} // verus!
