//! Compiled modules and the store that keeps them by file name.

use vstd::prelude::*;

verus! {

/// This is a handle to get the binary representation of the module.
#[derive(Debug)]
pub struct ModuleBinary {
    module: Vec<u8>,
}

impl View for ModuleBinary {
    type V = Seq<u8>;

    closed spec fn view(&self) -> Seq<u8> {
        self.module@
    }
}

impl Clone for ModuleBinary {
    fn clone(&self) -> (r: Self)
        ensures
            r@ == self@,
    {
        let module = self.module.clone();
        assert(module@ =~= self.module@);
        ModuleBinary { module }
    }
}

impl PartialEq for ModuleBinary {
    fn eq(&self, rhs: &Self) -> (r: bool) {
        self.same_bytes(rhs)
    }
}

impl Eq for ModuleBinary {

}

impl vstd::std_specs::cmp::PartialEqSpecImpl for ModuleBinary {
    open spec fn obeys_eq_spec() -> bool {
        true
    }

    open spec fn eq_spec(&self, rhs: &Self) -> bool {
        self@ == rhs@
    }
}

impl ModuleBinary {
    /// Wraps the bytes of a compiled module.
    pub fn from_vec(module: Vec<u8>) -> (r: ModuleBinary)
        ensures
            r@ == module@,
    {
        ModuleBinary { module }
    }

    /// Convert this object into wasm module binary representation.
    pub fn into_vec(self) -> (r: Vec<u8>)
        ensures
            r@ == self@,
    {
        self.module
    }

    /// The bytes of the module.
    pub fn as_slice(&self) -> (r: &[u8])
        ensures
            r@ == self@,
    {
        self.module.as_slice()
    }

    /// Whether two binaries hold the same bytes.
    pub fn same_bytes(&self, rhs: &ModuleBinary) -> (r: bool)
        ensures
            r == (self@ == rhs@),
    {
        if self.module.len() != rhs.module.len() {
            return false;
        }
        let mut i: usize = 0;
        while i < self.module.len()
            invariant
                i <= self.module.len(),
                self.module.len() == rhs.module.len(),
                forall|j: int| 0 <= j < i ==> self.module@[j] == rhs.module@[j],
            decreases self.module.len() - i,
        {
            if self.module[i] != rhs.module[i] {
                return false;
            }
            i = i + 1;
        }
        assert(self.module@ =~= rhs.module@);
        true
    }
}

/// The bytes of an optional byte vector.
pub open spec fn opt_bytes(bytes: Option<Vec<u8>>) -> Option<Seq<u8>> {
    match bytes {
        Some(b) => Some(b@),
        None => None,
    }
}

/// The map that a list of named binaries stands for: where a name occurs
/// more than once, the entry nearest the end counts.
pub open spec fn entries_map(entries: Seq<(Seq<char>, Seq<u8>)>) -> Map<Seq<char>, Seq<u8>>
    decreases entries.len(),
{
    if entries.len() == 0 {
        Map::empty()
    } else {
        entries_map(entries.drop_last()).insert(entries.last().0, entries.last().1)
    }
}

/// The binary that a list of named binaries holds under `key`: that of the
/// entry nearest the end with that name.
pub open spec fn entries_lookup(entries: Seq<(Seq<char>, Seq<u8>)>, key: Seq<char>) -> Option<
    Seq<u8>,
>
    decreases entries.len(),
{
    if entries.len() == 0 {
        None
    } else if entries.last().0 == key {
        Some(entries.last().1)
    } else {
        entries_lookup(entries.drop_last(), key)
    }
}

/// Looking a name up among the entries agrees with the map they stand for.
pub proof fn lemma_entries_map_lookup(entries: Seq<(Seq<char>, Seq<u8>)>, key: Seq<char>)
    ensures
        entries_map(entries).dom().contains(key) <==> entries_lookup(entries, key) is Some,
        entries_map(entries).dom().contains(key) ==> entries_lookup(entries, key) == Some(
            entries_map(entries)[key],
        ),
    decreases entries.len(),
{
    if entries.len() != 0 {
        lemma_entries_map_lookup(entries.drop_last(), key);
    }
}

/// The compiled modules of one script, each under the file name that the
/// script's commands refer to it by.
#[derive(Debug)]
pub struct ModuleStore {
    entries: Vec<(String, ModuleBinary)>,
}

impl ModuleStore {
    /// The stored names and byte sequences, in insertion order.
    pub closed spec fn entries(&self) -> Seq<(Seq<char>, Seq<u8>)> {
        Seq::new(self.entries@.len(), |i: int| (self.entries@[i].0@, self.entries@[i].1@))
    }

    /// A store that holds nothing.
    pub fn new() -> (r: ModuleStore)
        ensures
            r@ == Map::<Seq<char>, Seq<u8>>::empty(),
    {
        ModuleStore { entries: Vec::new() }
    }

    /// Files `module` under `filename`, in place of any binary that was
    /// filed under that name before.
    pub fn insert(&mut self, filename: String, module: Vec<u8>)
        ensures
            final(self)@ == old(self)@.insert(filename@, module@),
    {
        let ghost name = filename@;
        let ghost bytes = module@;
        self.entries.push((filename, ModuleBinary::from_vec(module)));
        proof {
            assert(self.entries().drop_last() =~= old(self).entries());
            assert(self.entries().last() == (name, bytes));
        }
    }

    /// A copy of the binary filed under `filename`, if there is one.
    pub fn get(&self, filename: &str) -> (r: Option<ModuleBinary>)
        ensures
            r is Some <==> self@.dom().contains(filename@),
            r is Some ==> r->Some_0@ == self@[filename@],
    {
        let key: String = filename.to_owned();
        let mut i: usize = self.entries.len();
        proof {
            assert(self.entries().subrange(0, i as int) =~= self.entries());
        }
        while i > 0
            invariant
                i <= self.entries@.len(),
                key@ == filename@,
                entries_lookup(self.entries(), filename@) == entries_lookup(
                    self.entries().subrange(0, i as int),
                    filename@,
                ),
            decreases i,
        {
            let ghost es = self.entries().subrange(0, i as int);
            i = i - 1;
            proof {
                assert(es.drop_last() =~= self.entries().subrange(0, i as int));
                assert(es.last() == (self.entries@[i as int].0@, self.entries@[i as int].1@));
            }
            if self.entries[i].0 == key {
                proof {
                    lemma_entries_map_lookup(self.entries(), filename@);
                }
                return Some(self.entries[i].1.clone());
            }
        }
        proof {
            lemma_entries_map_lookup(self.entries(), filename@);
        }
        None
    }
}

impl View for ModuleStore {
    type V = Map<Seq<char>, Seq<u8>>;

    closed spec fn view(&self) -> Map<Seq<char>, Seq<u8>> {
        entries_map(self.entries())
    }
}

} // verus!
