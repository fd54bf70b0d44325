//! A key-addressed store of SVG text, held in memory.
//!
//! Entries are addressed by `(pack, name, key)` through the same relative
//! path the on-disk stores use, so a resolution driven against this store
//! behaves as one driven against a directory. Its model is the map from
//! relative paths to stored text; a later `store` under the same address
//! overrides an earlier one, exactly as a file overwrite would.

use vstd::prelude::*;

use crate::paths::{entry_rel_path, entry_rel_path_exec};
use crate::strutil::str_eq;

verus! {

/// The map an entry list stands for; a later entry overrides an earlier
/// one under the same path.
pub open spec fn entries_map(es: Seq<(String, String)>) -> Map<Seq<char>, Seq<char>>
    decreases es.len(),
{
    if es.len() == 0 {
        Map::empty()
    } else {
        entries_map(es.drop_last()).insert(es.last().0@, es.last().1@)
    }
}

/// An in-memory store: the fake store a resolution can be driven against
/// without touching a filesystem.
pub struct MemStore {
    entries: Vec<(String, String)>,
}

impl View for MemStore {
    type V = Map<Seq<char>, Seq<char>>;

    closed spec fn view(&self) -> Map<Seq<char>, Seq<char>> {
        entries_map(self.entries@)
    }
}

proof fn lemma_entries_map_found(es: Seq<(String, String)>, i: int, k: Seq<char>)
    requires
        0 <= i < es.len(),
        es[i].0@ == k,
        forall|j: int| i < j < es.len() ==> es[j].0@ != k,
    ensures
        entries_map(es).contains_key(k),
        entries_map(es)[k] == es[i].1@,
    decreases es.len(),
{
    if i == es.len() - 1 {
    } else {
        assert(es.last().0@ != k);
        assert(es.drop_last()[i] == es[i]);
        assert forall|j: int| i < j < es.drop_last().len() implies es.drop_last()[j].0@ != k by {
            assert(es.drop_last()[j] == es[j]);
        }
        lemma_entries_map_found(es.drop_last(), i, k);
    }
}

proof fn lemma_entries_map_absent(es: Seq<(String, String)>, k: Seq<char>)
    requires
        forall|j: int| 0 <= j < es.len() ==> es[j].0@ != k,
    ensures
        !entries_map(es).contains_key(k),
    decreases es.len(),
{
    if es.len() > 0 {
        assert(es.last().0@ != k);
        assert forall|j: int| 0 <= j < es.drop_last().len() implies es.drop_last()[j].0@ != k by {
            assert(es.drop_last()[j] == es[j]);
        }
        lemma_entries_map_absent(es.drop_last(), k);
    }
}

impl MemStore {
    /// An empty store.
    pub fn new() -> (r: MemStore)
        ensures
            r@ == Map::<Seq<char>, Seq<char>>::empty(),
    {
        MemStore { entries: Vec::new() }
    }

    /// Writes `text` under `(pack, name, key)`, overriding an entry already
    /// there.
    pub fn store(&mut self, pack: &str, name: &str, key: &str, text: String)
        ensures
            final(self)@ == old(self)@.insert(entry_rel_path(pack@, name@, key@), text@),
    {
        let path = entry_rel_path_exec(pack, name, key);
        proof {
            let ghost es = self.entries@;
            assert(es.push((path, text)).drop_last() =~= es);
        }
        self.entries.push((path, text));
    }

    /// Reads the entry under `(pack, name, key)`; `None` is a miss, never
    /// an error.
    pub fn lookup(&self, pack: &str, name: &str, key: &str) -> (r: Option<String>)
        ensures
            r matches Some(t) ==> self@.contains_key(entry_rel_path(pack@, name@, key@)) && t@
                == self@[entry_rel_path(pack@, name@, key@)],
            r is None ==> !self@.contains_key(entry_rel_path(pack@, name@, key@)),
    {
        let path = entry_rel_path_exec(pack, name, key);
        let n = self.entries.len();
        let mut i: usize = n;
        while i > 0
            invariant
                0 <= i <= n,
                n == self.entries@.len(),
                path@ == entry_rel_path(pack@, name@, key@),
                forall|j: int| i <= j < n ==> self.entries@[j].0@ != path@,
            decreases i,
        {
            i = i - 1;
            let e = &self.entries[i];
            if str_eq(e.0.as_str(), path.as_str()) {
                proof {
                    lemma_entries_map_found(self.entries@, i as int, path@);
                }
                return Some(e.1.clone());
            }
        }
        proof {
            lemma_entries_map_absent(self.entries@, path@);
        }
        None
    }
}

/// Cache round trip: a lookup of `(pack, name, key)` right after a store
/// of `text` under the same address yields exactly `text`, whatever the
/// store held before.
pub proof fn lemma_store_lookup_roundtrip(
    m: Map<Seq<char>, Seq<char>>,
    pack: Seq<char>,
    name: Seq<char>,
    key: Seq<char>,
    text: Seq<char>,
)
    ensures
        m.insert(entry_rel_path(pack, name, key), text).contains_key(
            entry_rel_path(pack, name, key),
        ),
        m.insert(entry_rel_path(pack, name, key), text)[entry_rel_path(pack, name, key)] == text,
{
}

} // verus!
