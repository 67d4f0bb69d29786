use vstd::prelude::*;
use crate::models::{PokemonResponse, SpeciesRecord};
use crate::util::TranslationType;

verus! {

/// A cache key as the contracts see it: a species name and a translation.
pub open spec fn key_view(k: (String, TranslationType)) -> (Seq<char>, TranslationType) {
    (k.0@, k.1)
}

/// `n` as a counter that stops at the largest `u64`.
pub open spec fn clamped(n: nat) -> u64 {
    if n >= u64::MAX {
        u64::MAX
    } else {
        n as u64
    }
}

/// A store of served records, keyed by species name and translation.
///
/// A cache never hands out a record other than the one last inserted under
/// the key asked for. It may forget entries; one that `retains_all` forgets
/// none.
pub trait CacheWrapper {
    /// For each key, the record last inserted under it.
    spec fn recorded(&self) -> Map<(Seq<char>, TranslationType), SpeciesRecord>;

    /// Whether every recorded entry is still held.
    spec fn retains_all(&self) -> bool;

    /// How many lookups were made.
    spec fn lookups(&self) -> nat;

    /// How many insertions were made.
    spec fn inserts(&self) -> nat;

    /// The record held for `key`, if any.
    fn get(&mut self, key: &(String, TranslationType)) -> (r: Option<PokemonResponse>)
        ensures
            final(self).recorded() == old(self).recorded(),
            final(self).retains_all() == old(self).retains_all(),
            final(self).lookups() == old(self).lookups() + 1,
            final(self).inserts() == old(self).inserts(),
            r matches Some(v) ==> {
                &&& old(self).recorded().contains_key(key_view(*key))
                &&& old(self).recorded()[key_view(*key)] == v@
            },
            old(self).retains_all() && old(self).recorded().contains_key(key_view(*key))
                ==> r is Some,
    ;

    /// Records `value` under `key`, replacing what was there.
    fn insert(&mut self, key: (String, TranslationType), value: PokemonResponse)
        ensures
            final(self).recorded() == old(self).recorded().insert(key_view(key), value@),
            final(self).retains_all() == old(self).retains_all(),
            final(self).lookups() == old(self).lookups(),
            final(self).inserts() == old(self).inserts() + 1,
    ;
}

/// A count of calls that stops at the largest `u64`, beside the exact total.
struct Counter {
    count: u64,
    total: Ghost<nat>,
}

impl Counter {
    spec fn exact(self) -> bool {
        self.count == clamped(self.total@)
    }

    fn bumped(&self) -> (r: Counter)
        requires
            self.exact(),
        ensures
            r.exact(),
            r.total@ == self.total@ + 1,
    {
        let count = if self.count < u64::MAX {
            self.count + 1
        } else {
            self.count
        };
        Counter { count, total: Ghost(self.total@ + 1) }
    }
}

/// The entries of a `CountingCache`, beside the map they stand for.
struct Store {
    entries: Vec<(String, TranslationType, PokemonResponse)>,
    held: Ghost<Map<(Seq<char>, TranslationType), SpeciesRecord>>,
}

impl Store {
    spec fn entry_key(self, i: int) -> (Seq<char>, TranslationType) {
        (self.entries@[i].0@, self.entries@[i].1)
    }

    /// The entries hold exactly the recorded map, one entry per key.
    spec fn consistent(self) -> bool {
        &&& forall|i: int|
            0 <= i < self.entries@.len() ==> {
                &&& self.held@.contains_key(#[trigger] self.entry_key(i))
                &&& self.held@[self.entry_key(i)] == self.entries@[i].2@
            }
        &&& forall|k: (Seq<char>, TranslationType)|
            #[trigger] self.held@.contains_key(k) ==> exists|i: int|
                0 <= i < self.entries@.len() && #[trigger] self.entry_key(i) == k
        &&& forall|i: int, j: int|
            0 <= i < j < self.entries@.len() ==> #[trigger] self.entry_key(i)
                != #[trigger] self.entry_key(j)
    }

    fn empty() -> (r: Store)
        ensures
            r.consistent(),
            r.held@ == Map::<(Seq<char>, TranslationType), SpeciesRecord>::empty(),
    {
        Store { entries: Vec::new(), held: Ghost(Map::empty()) }
    }

    /// The position of the entry under `key`, if there is one.
    fn position(&self, key: &(String, TranslationType)) -> (r: Option<usize>)
        ensures
            r matches Some(i) ==> i < self.entries@.len() && self.entry_key(i as int) == key_view(*key),
            r is None ==> forall|i: int| 0 <= i < self.entries@.len() ==> self.entry_key(i) != key_view(*key),
    {
        let mut i: usize = 0;
        while i < self.entries.len()
            invariant
                i <= self.entries@.len(),
                forall|j: int| 0 <= j < i ==> self.entry_key(j) != key_view(*key),
            decreases self.entries@.len() - i,
        {
            if self.entries[i].0 == key.0 && self.entries[i].1 == key.1 {
                return Some(i);
            }
            i = i + 1;
        }
        None
    }

    fn find(&self, key: &(String, TranslationType)) -> (r: Option<PokemonResponse>)
        requires
            self.consistent(),
        ensures
            r matches Some(v) ==> self.held@.contains_key(key_view(*key)) && self.held@[key_view(*key)] == v@,
            r is None ==> !self.held@.contains_key(key_view(*key)),
    {
        match self.position(key) {
            Some(i) => {
                proof {
                    assert(self.held@.contains_key(self.entry_key(i as int)));
                }
                Some(self.entries[i].2.clone())
            },
            None => {
                proof {
                    if self.held@.contains_key(key_view(*key)) {
                        let i = choose|i: int|
                            0 <= i < self.entries@.len() && #[trigger] self.entry_key(i) == key_view(*key);
                        assert(self.entry_key(i) != key_view(*key));
                    }
                }
                None
            },
        }
    }

    fn put(&mut self, key: (String, TranslationType), value: PokemonResponse)
        requires
            old(self).consistent(),
        ensures
            final(self).consistent(),
            final(self).held@ == old(self).held@.insert(key_view(key), value@),
    {
        let ghost k = key_view(key);
        let ghost v = value@;
        let ghost pre = *self;
        let pos = self.position(&key);
        self.held = Ghost(pre.held@.insert(k, v));
        match pos {
            Some(i) => {
                self.entries.set(i, (key.0, key.1, value));
                proof {
                    assert forall|j: int| 0 <= j < self.entries@.len() && j != i implies #[trigger] self.entry_key(j)
                        == pre.entry_key(j) by {}
                    assert(self.entry_key(i as int) == k);
                    assert forall|j: int| 0 <= j < self.entries@.len() implies {
                        &&& self.held@.contains_key(#[trigger] self.entry_key(j))
                        &&& self.held@[self.entry_key(j)] == self.entries@[j].2@
                    } by {
                        if j != i {
                            assert(pre.entry_key(j) != pre.entry_key(i as int));
                        }
                    }
                    assert forall|k2: (Seq<char>, TranslationType)| #[trigger] self.held@.contains_key(k2) implies exists|j: int|
                        0 <= j < self.entries@.len() && #[trigger] self.entry_key(j) == k2 by {
                        if k2 == k {
                            assert(self.entry_key(i as int) == k2);
                        } else {
                            assert(pre.held@.contains_key(k2));
                            let j = choose|j: int| 0 <= j < pre.entries@.len() && #[trigger] pre.entry_key(j) == k2;
                            assert(self.entry_key(j) == k2);
                        }
                    }
                    assert forall|a: int, b: int| 0 <= a < b < self.entries@.len() implies #[trigger] self.entry_key(a)
                        != #[trigger] self.entry_key(b) by {
                        assert(pre.entry_key(a) != pre.entry_key(b));
                    }
                }
            },
            None => {
                self.entries.push((key.0, key.1, value));
                proof {
                    let n = pre.entries@.len() as int;
                    assert forall|j: int| 0 <= j < n implies #[trigger] self.entry_key(j) == pre.entry_key(j) by {}
                    assert(self.entry_key(n) == k);
                    assert forall|j: int| 0 <= j < self.entries@.len() implies {
                        &&& self.held@.contains_key(#[trigger] self.entry_key(j))
                        &&& self.held@[self.entry_key(j)] == self.entries@[j].2@
                    } by {
                        if j < n {
                            assert(pre.entry_key(j) != k);
                        }
                    }
                    assert forall|k2: (Seq<char>, TranslationType)| #[trigger] self.held@.contains_key(k2) implies exists|j: int|
                        0 <= j < self.entries@.len() && #[trigger] self.entry_key(j) == k2 by {
                        if k2 == k {
                            assert(self.entry_key(n) == k2);
                        } else {
                            assert(pre.held@.contains_key(k2));
                            let j = choose|j: int| 0 <= j < pre.entries@.len() && #[trigger] pre.entry_key(j) == k2;
                            assert(self.entry_key(j) == k2);
                        }
                    }
                    assert forall|a: int, b: int| 0 <= a < b < self.entries@.len() implies #[trigger] self.entry_key(a)
                        != #[trigger] self.entry_key(b) by {
                        if b == n {
                            assert(pre.entry_key(a) != k);
                        } else {
                            assert(pre.entry_key(a) != pre.entry_key(b));
                        }
                    }
                }
            },
        }
    }
}

/// A cache that keeps every entry and counts the calls made on it.
pub struct CountingCache {
    store: Store,
    gets: Counter,
    puts: Counter,
}

impl CountingCache {
    #[verifier::type_invariant]
    spec fn consistent(self) -> bool {
        &&& self.store.consistent()
        &&& self.gets.exact()
        &&& self.puts.exact()
    }

    /// Takes the store out, leaving an empty one in its place.
    fn take_store(&mut self) -> (r: Store)
        ensures
            r == old(self).store,
            r.consistent(),
            final(self).gets == old(self).gets,
            final(self).puts == old(self).puts,
    {
        proof { use_type_invariant(&*self); }
        let mut s = Store::empty();
        core::mem::swap(&mut self.store, &mut s);
        s
    }

    /// An empty cache with both counters at zero.
    pub fn new() -> (r: Self)
        ensures
            r.recorded() == Map::<(Seq<char>, TranslationType), SpeciesRecord>::empty(),
            r.lookups() == 0,
            r.inserts() == 0,
    {
        CountingCache {
            store: Store::empty(),
            gets: Counter { count: 0, total: Ghost(0) },
            puts: Counter { count: 0, total: Ghost(0) },
        }
    }

    /// How many lookups were made, stopping at the largest `u64`.
    pub fn get_count(&self) -> (r: u64)
        ensures
            r == clamped(self.lookups()),
    {
        proof { use_type_invariant(self); }
        self.gets.count
    }

    /// How many insertions were made, stopping at the largest `u64`.
    pub fn insert_count(&self) -> (r: u64)
        ensures
            r == clamped(self.inserts()),
    {
        proof { use_type_invariant(self); }
        self.puts.count
    }
}

impl CacheWrapper for CountingCache {
    closed spec fn recorded(&self) -> Map<(Seq<char>, TranslationType), SpeciesRecord> {
        self.store.held@
    }

    open spec fn retains_all(&self) -> bool {
        true
    }

    closed spec fn lookups(&self) -> nat {
        self.gets.total@
    }

    closed spec fn inserts(&self) -> nat {
        self.puts.total@
    }

    fn get(&mut self, key: &(String, TranslationType)) -> (r: Option<PokemonResponse>) {
        proof { use_type_invariant(&*self); }
        self.gets = self.gets.bumped();
        self.store.find(key)
    }

    fn insert(&mut self, key: (String, TranslationType), value: PokemonResponse) {
        proof { use_type_invariant(&*self); }
        self.puts = self.puts.bumped();
        let mut s = self.take_store();
        s.put(key, value);
        self.store = s;
    }
}

#[verifier::external_type_specification]
#[verifier::external_body]
#[verifier::reject_recursive_types(K)]
#[verifier::reject_recursive_types(V)]
#[verifier::reject_recursive_types(S)]
pub struct ExMokaCache<K, V, S>(moka::sync::Cache<K, V, S>);

/// A moka cache of records, each kept as its fields under a name and the
/// code of a translation.
pub type RecordTable = moka::sync::Cache<(String, u8), RecordFields>;

/// The fields of a record: name, description, habitat, legendary flag.
pub type RecordFields = (String, String, String, bool);

/// For each key of a moka cache of records, the value last inserted under it.
/// The cache itself may have evicted it since.
pub uninterp spec fn moka_entries(
    c: RecordTable,
) -> Map<(Seq<char>, u8), (Seq<char>, Seq<char>, Seq<char>, bool)>;

/// The entries of a table that holds nothing.
pub open spec fn empty_table() -> Map<(Seq<char>, u8), (Seq<char>, Seq<char>, Seq<char>, bool)> {
    Map::empty()
}

/// Relies on moka::sync::Cache::new: a cache that holds nothing yet and keeps
/// at most `max_capacity` entries.
#[verifier::external_body]
fn new_table(max_capacity: u64) -> (r: RecordTable)
    ensures
        moka_entries(r) == empty_table(),
{
    moka::sync::Cache::new(max_capacity)
}

/// Relies on moka::sync::Cache::get: a clone of the value held under `key`,
/// which is the one last inserted under it; `None` where nothing is held,
/// also after an eviction.
#[verifier::external_body]
fn table_get(
    c: &RecordTable,
    key: &(String, u8),
) -> (r: Option<RecordFields>)
    ensures
        r matches Some(v) ==> {
            &&& moka_entries(*c).contains_key((key.0@, key.1))
            &&& moka_entries(*c)[(key.0@, key.1)] == (v.0@, v.1@, v.2@, v.3)
        },
{
    c.get(key)
}

/// Relies on moka::sync::Cache::insert: `value` becomes the value under
/// `key`, replacing any earlier one.
#[verifier::external_body]
fn table_insert(
    c: &mut RecordTable,
    key: (String, u8),
    value: RecordFields,
)
    ensures
        moka_entries(*final(c)) == moka_entries(*old(c)).insert(
            (key.0@, key.1),
            (value.0@, value.1@, value.2@, value.3),
        ),
{
    c.insert(key, value)
}

/// How a translation is written in a moka key.
pub open spec fn kind_code(t: TranslationType) -> u8 {
    match t {
        TranslationType::Yoda => 0,
        TranslationType::Shakespeare => 1,
        TranslationType::Plain => 2,
    }
}

fn code_of(t: TranslationType) -> (r: u8)
    ensures
        r == kind_code(t),
{
    match t {
        TranslationType::Yoda => 0,
        TranslationType::Shakespeare => 1,
        TranslationType::Plain => 2,
    }
}

/// The record whose fields are `t`, in order.
pub open spec fn record_from(t: (Seq<char>, Seq<char>, Seq<char>, bool)) -> SpeciesRecord {
    SpeciesRecord { name: t.0, description: t.1, habitat: t.2, is_legendary: t.3 }
}

/// The records of a moka table, keyed by name and translation.
pub open spec fn records_in(
    m: Map<(Seq<char>, u8), (Seq<char>, Seq<char>, Seq<char>, bool)>,
) -> Map<(Seq<char>, TranslationType), SpeciesRecord> {
    Map::new(
        |k: (Seq<char>, TranslationType)| m.contains_key((k.0, kind_code(k.1))),
        |k: (Seq<char>, TranslationType)| record_from(m[(k.0, kind_code(k.1))]),
    )
}

/// A bounded cache on moka's concurrent cache, for serving. It may evict
/// entries under capacity pressure.
pub struct MokaCache {
    table: RecordTable,
    lookup_total: Ghost<nat>,
    insert_total: Ghost<nat>,
}

impl MokaCache {
    /// An empty cache of at most `max_capacity` entries.
    pub fn new(max_capacity: u64) -> (r: Self)
        ensures
            r.recorded() == Map::<(Seq<char>, TranslationType), SpeciesRecord>::empty(),
            r.lookups() == 0,
            r.inserts() == 0,
    {
        let table = new_table(max_capacity);
        let r = MokaCache { table, lookup_total: Ghost(0), insert_total: Ghost(0) };
        assert(r.recorded() =~= Map::<(Seq<char>, TranslationType), SpeciesRecord>::empty());
        r
    }
}

impl CacheWrapper for MokaCache {
    closed spec fn recorded(&self) -> Map<(Seq<char>, TranslationType), SpeciesRecord> {
        records_in(moka_entries(self.table))
    }

    open spec fn retains_all(&self) -> bool {
        false
    }

    closed spec fn lookups(&self) -> nat {
        self.lookup_total@
    }

    closed spec fn inserts(&self) -> nat {
        self.insert_total@
    }

    fn get(&mut self, key: &(String, TranslationType)) -> (r: Option<PokemonResponse>) {
        self.lookup_total = Ghost(self.lookup_total@ + 1);
        let k = (key.0.clone(), code_of(key.1));
        match table_get(&self.table, &k) {
            Some(v) => Some(PokemonResponse::new(v.0, v.1, v.2, v.3)),
            None => None,
        }
    }

    fn insert(&mut self, key: (String, TranslationType), value: PokemonResponse) {
        self.insert_total = Ghost(self.insert_total@ + 1);
        let ghost before = moka_entries(self.table);
        let k = (key.0, code_of(key.1));
        let v = (
            value.name().to_owned(),
            value.description().to_owned(),
            value.habitat().to_owned(),
            value.is_legendary(),
        );
        table_insert(&mut self.table, k, v);
        proof {
            assert(records_in(moka_entries(self.table)) =~= records_in(before).insert(key_view(key), value@));
        }
    }
}

} // verus!
