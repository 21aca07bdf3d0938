use std::sync::Arc;
use vstd::prelude::*;

use crate::tiles::{servable, TileMeta};

verus! {

/// No two tilesets share an id.
pub open spec fn ids_unique(s: Seq<TileMeta>) -> bool {
    forall|i: int, j: int|
        0 <= i < s.len() && 0 <= j < s.len() && i != j ==> #[trigger] s[i].id@ != #[trigger] s[j].id@
}

/// Every tileset is of a format that can be served.
pub open spec fn all_servable(s: Seq<TileMeta>) -> bool {
    forall|i: int| 0 <= i < s.len() ==> servable(#[trigger] s[i].tile_format)
}

/// What every registry holds to.
pub open spec fn registry_inv(s: Seq<TileMeta>) -> bool {
    ids_unique(s) && all_servable(s)
}

pub open spec fn has_id(s: Seq<TileMeta>, id: Seq<char>) -> bool {
    exists|i: int| 0 <= i < s.len() && #[trigger] s[i].id@ == id
}

/// The position of the tileset with the given id.
pub open spec fn index_of(s: Seq<TileMeta>, id: Seq<char>) -> int {
    choose|i: int| 0 <= i < s.len() && #[trigger] s[i].id@ == id
}

/// The tileset registered under an id, if any.
pub open spec fn lookup(s: Seq<TileMeta>, id: Seq<char>) -> Option<TileMeta> {
    if has_id(s, id) {
        Some(s[index_of(s, id)])
    } else {
        None
    }
}

/// The registry after adding a tileset: it takes the place of the one with
/// the same id, or else comes last.
pub open spec fn inserted(s: Seq<TileMeta>, m: TileMeta) -> Seq<TileMeta> {
    if has_id(s, m.id@) {
        s.update(index_of(s, m.id@), m)
    } else {
        s.push(m)
    }
}

/// A mapping from tileset id to tileset.
pub struct Registry {
    entries: Vec<TileMeta>,
}

impl View for Registry {
    type V = Seq<TileMeta>;

    closed spec fn view(&self) -> Seq<TileMeta> {
        self.entries@
    }
}

impl Registry {
    #[verifier::type_invariant]
    closed spec fn inv(&self) -> bool {
        registry_inv(self.entries@)
    }

    /// An empty registry.
    pub fn new() -> (r: Registry)
        ensures
            r@ == Seq::<TileMeta>::empty(),
    {
        Registry { entries: Vec::new() }
    }

    /// How many tilesets are registered.
    pub fn len(&self) -> (r: usize)
        ensures
            r == self@.len(),
    {
        self.entries.len()
    }

    /// The tilesets, in the order they were first registered; each is of a
    /// servable format and has an id of its own.
    pub fn list(&self) -> (r: &Vec<TileMeta>)
        ensures
            r@ == self@,
            registry_inv(r@),
    {
        proof {
            use_type_invariant(self);
        }
        &self.entries
    }

    fn position(&self, id: &String) -> (r: Option<usize>)
        ensures
            r matches Some(i) ==> i < self@.len() && index_of(self@, id@) == i && has_id(
                self@,
                id@,
            ),
            r is None ==> !has_id(self@, id@),
    {
        proof {
            use_type_invariant(self);
        }
        let mut i: usize = 0;
        while i < self.entries.len()
            invariant
                0 <= i <= self@.len(),
                self@ == self.entries@,
                registry_inv(self@),
                forall|j: int| 0 <= j < i ==> self@[j].id@ != id@,
            decreases self@.len() - i,
        {
            if self.entries[i].id == *id {
                assert(self@[i as int].id@ == id@);
                let ghost k = index_of(self@, id@);
                assert(k == i);
                return Some(i);
            }
            i = i + 1;
        }
        None
    }

    /// The tileset registered under `id`, if any.
    pub fn get(&self, id: &str) -> (r: Option<&TileMeta>)
        ensures
            r matches Some(m) ==> lookup(self@, id@) == Some(*m) && servable(m.tile_format),
            r is None <==> lookup(self@, id@) is None,
    {
        proof {
            use_type_invariant(self);
        }
        match self.position(&id.to_owned()) {
            Some(i) => Some(&self.entries[i]),
            None => None,
        }
    }

    /// Registers a tileset under its id; one already there under that id is
    /// replaced, and the result says whether that happened.
    pub fn insert(&mut self, meta: TileMeta) -> (replaced: bool)
        requires
            servable(meta.tile_format),
        ensures
            final(self)@ == inserted(old(self)@, meta),
            registry_inv(final(self)@),
            replaced == has_id(old(self)@, meta.id@),
    {
        proof {
            use_type_invariant(&*self);
        }
        let found = self.position(&meta.id);
        let mut entries: Vec<TileMeta> = Vec::new();
        std::mem::swap(&mut entries, &mut self.entries);
        let replaced = match found {
            Some(i) => {
                entries.set(i, meta);
                true
            },
            None => {
                entries.push(meta);
                false
            },
        };
        self.entries = entries;
        replaced
    }
}

/// A tileset added to a registry is found under its id afterwards, and
/// every other id keeps the tileset it had.
pub proof fn law_inserted_found(s: Seq<TileMeta>, m: TileMeta, id: Seq<char>)
    requires
        ids_unique(s),
    ensures
        ids_unique(inserted(s, m)),
        lookup(inserted(s, m), m.id@) == Some(m),
        id != m.id@ ==> lookup(inserted(s, m), id) == lookup(s, id),
{
    let t = inserted(s, m);
    if has_id(s, m.id@) {
        let k = index_of(s, m.id@);
        assert(t[k].id@ == m.id@);
        assert(has_id(t, m.id@));
        let c = index_of(t, m.id@);
        assert(c == k);
        if has_id(s, id) && id != m.id@ {
            let j = index_of(s, id);
            assert(t[j] == s[j]);
            assert(has_id(t, id));
        }
        if has_id(t, id) && id != m.id@ {
            let j = index_of(t, id);
            assert(s[j].id@ == id);
        }
    } else {
        let k = s.len() as int;
        assert(t[k].id@ == m.id@);
        assert(has_id(t, m.id@));
        if has_id(s, id) && id != m.id@ {
            let j = index_of(s, id);
            assert(t[j] == s[j]);
            assert(has_id(t, id));
        }
        if has_id(t, id) && id != m.id@ {
            let j = index_of(t, id);
            assert(s[j].id@ == id);
        }
    }
}

/// A lookup in a snapshot yields an entry of that snapshot under the asked
/// id: a registry published later by a reload cannot reach it.
pub proof fn law_lookup_from_snapshot(snapshot: Seq<TileMeta>, id: Seq<char>)
    ensures
        lookup(snapshot, id) matches Some(m) ==> snapshot.contains(m) && m.id@ == id,
{
    if has_id(snapshot, id) {
        let k = index_of(snapshot, id);
        assert(snapshot[k] == lookup(snapshot, id)->0);
    }
}

/// The current registry, shared by every request that runs. A request takes
/// a snapshot once and keeps it; a reload publishes a new registry for the
/// requests that come after.
pub struct Tilesets {
    current: Arc<Registry>,
}

impl View for Tilesets {
    type V = Seq<TileMeta>;

    closed spec fn view(&self) -> Seq<TileMeta> {
        self.current@
    }
}

impl Tilesets {
    /// Starts with the given registry.
    pub fn new(initial: Registry) -> (r: Tilesets)
        ensures
            r@ == initial@,
    {
        Tilesets { current: Arc::new(initial) }
    }

    /// The registry that requests see now.
    pub fn snapshot(&self) -> (r: Arc<Registry>)
        ensures
            r@ == self@,
    {
        Arc::clone(&self.current)
    }

    /// Publishes a new registry; snapshots taken before keep the old one.
    pub fn reload(&mut self, next: Registry) -> (previous: Arc<Registry>)
        ensures
            final(self)@ == next@,
            previous@ == old(self)@,
    {
        let previous = Arc::clone(&self.current);
        self.current = Arc::new(next);
        previous
    }
}

} // verus!
