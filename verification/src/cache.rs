use vstd::prelude::*;
use vstd::string::StringSliceAdditionalSpecFns;
use elsa::FrozenVec;
use std::collections::HashMap;
use crate::engine::database::Database;
use crate::engine::database::DatabaseModel;
use crate::engine::database::Row;
use crate::engine::database::TableRow;
use crate::engine::kinds::TableId;
use crate::schema::rows::TypeDef;
use crate::schema::types::bytes_eq;
use crate::error::DecodeErrorKind;

verus! {

/// `elsa::FrozenVec`: a vector that only grows.
#[verifier::external_type_specification]
#[verifier::external_body]
#[verifier::reject_recursive_types(T)]
pub struct ExFrozenVec<T>(FrozenVec<T>);

/// What the images in a frozen vector are, in the order in which they were pushed.
pub uninterp spec fn frozen_databases(v: FrozenVec<Box<Database>>) -> Seq<DatabaseModel>;

/// `FrozenVec::new` of elsa: a vector that holds nothing.
#[verifier::external_body]
fn frozen_new<'db>() -> (r: FrozenVec<Box<Database<'db>>>)
    ensures
        frozen_databases(r) == Seq::<DatabaseModel>::empty(),
{
    FrozenVec::new()
}

/// `FrozenVec::push` of elsa: the value is added at the end and nothing
/// else changes.
#[verifier::external_body]
fn frozen_push<'db>(v: &mut FrozenVec<Box<Database<'db>>>, database: Database<'db>)
    ensures
        frozen_databases(*final(v)) == frozen_databases(*old(v)).push(database@),
{
    v.push(Box::new(database));
}

/// `FrozenVec::len` of elsa: how many values the vector holds.
#[verifier::external_body]
fn frozen_len<'db>(v: &FrozenVec<Box<Database<'db>>>) -> (r: usize)
    ensures
        r == frozen_databases(*v).len(),
{
    v.len()
}

/// `FrozenVec::get` of elsa: the value at `index`, if the vector holds that many.
#[verifier::external_body]
fn frozen_get<'a, 'db>(v: &'a FrozenVec<Box<Database<'db>>>, index: usize) -> (r: Option<
    &'a Database<'db>,
>)
    ensures
        index < frozen_databases(*v).len() ==> r is Some && r.unwrap()@ == frozen_databases(
            *v,
        )[index as int],
        index >= frozen_databases(*v).len() ==> r is None,
{
    v.get(index)
}


/// One type that the cache knows by name: where it is defined.
pub struct CacheEntry<'db> {
    namespace: &'db str,
    name: &'db str,
    db: usize,
    row: u32,
}

/// What an entry of the cache is: the bytes of the namespace and of the
/// name, the position of the image, and the number of the row of the type.
pub struct EntryModel {
    pub namespace: Seq<u8>,
    pub name: Seq<u8>,
    pub db: int,
    pub row: int,
}

/// What a cache is: the images in the order in which they came, and the
/// types known by name, in the order in which they were first seen.
pub struct CacheModel {
    pub databases: Seq<DatabaseModel>,
    pub index: Seq<EntryModel>,
}

/// The entry names a type definition of one of `databases`, by the namespace
/// and the name that its row holds.
pub open spec fn entry_ok(databases: Seq<DatabaseModel>, e: EntryModel) -> bool {
    &&& 0 <= e.db < databases.len()
    &&& 0 <= e.row < databases[e.db].row_count(TableId::TypeDef)
    &&& databases[e.db].string(TableId::TypeDef, e.row, 1) == Ok::<Seq<u8>, DecodeErrorKind>(e.name)
    &&& databases[e.db].string(TableId::TypeDef, e.row, 2) == Ok::<Seq<u8>, DecodeErrorKind>(
        e.namespace,
    )
}

/// The first entry from `from` on with the namespace `namespace` and the name `name`.
pub open spec fn spec_find(index: Seq<EntryModel>, namespace: Seq<u8>, name: Seq<u8>, from: int)
    -> Option<EntryModel>
    decreases index.len() - from,
{
    if from < 0 || from >= index.len() {
        None
    } else if index[from].namespace == namespace && index[from].name == name {
        Some(index[from])
    } else {
        spec_find(index, namespace, name, from + 1)
    }
}

/// The index after the type definitions `[i, n)` of the image `db`, which
/// stands at position `at`, were looked at in order: a type whose namespace
/// and name can be read and are not yet known is added at the end.
pub open spec fn spec_insert_rows(index: Seq<EntryModel>, db: DatabaseModel, at: int, i: int, n: int)
    -> Seq<EntryModel>
    decreases n - i,
{
    if i >= n {
        index
    } else {
        match (db.string(TableId::TypeDef, i, 2), db.string(TableId::TypeDef, i, 1)) {
            (Ok(namespace), Ok(name)) => if spec_find(index, namespace, name, 0) is Some {
                spec_insert_rows(index, db, at, i + 1, n)
            } else {
                spec_insert_rows(
                    index.push(EntryModel { namespace: namespace, name: name, db: at, row: i }),
                    db,
                    at,
                    i + 1,
                    n,
                )
            },
            _ => spec_insert_rows(index, db, at, i + 1, n),
        }
    }
}

impl CacheModel {
    /// Every entry names a type of one of the images, and no two entries
    /// have the same namespace and name.
    pub open spec fn wf(self) -> bool {
        &&& forall|i: int| 0 <= i < self.index.len() ==> entry_ok(self.databases, #[trigger] self.index[i])
        &&& forall|i: int, j: int|
            0 <= i < j < self.index.len() ==> !((#[trigger] self.index[i]).namespace == (
            #[trigger] self.index[j]).namespace && self.index[i].name == self.index[j].name)
    }

    /// The type with the namespace `namespace` and the name `name`, where
    /// one is known.
    pub open spec fn find(self, namespace: Seq<u8>, name: Seq<u8>) -> Option<EntryModel> {
        spec_find(self.index, namespace, name, 0)
    }
}

/// What is found lies in the index, from the start of the search on, and
/// has the names that were asked for; nothing before it has them.
pub proof fn lemma_find(index: Seq<EntryModel>, namespace: Seq<u8>, name: Seq<u8>, from: int)
    requires
        0 <= from <= index.len(),
    ensures
        spec_find(index, namespace, name, from) matches Some(e) ==> exists|i: int|
            from <= i < index.len() && index[i] == e && e.namespace == namespace && e.name == name
                && forall|j: int|
                from <= j < i ==> !(index[j].namespace == namespace && index[j].name == name),
        spec_find(index, namespace, name, from) is None ==> forall|j: int|
            from <= j < index.len() ==> !(index[j].namespace == namespace && index[j].name == name),
    decreases index.len() - from,
{
    if from < index.len() {
        if index[from].namespace == namespace && index[from].name == name {
            assert(index[from] == spec_find(index, namespace, name, from).unwrap());
        } else {
            lemma_find(index, namespace, name, from + 1);
        }
    }
}

/// A type that was known stays the one that is found when the index grows:
/// the first to come wins.
pub proof fn lemma_find_push(index: Seq<EntryModel>, e: EntryModel, namespace: Seq<u8>, name: Seq<u8>, from: int)
    requires
        0 <= from <= index.len(),
    ensures
        spec_find(index, namespace, name, from) is Some ==> spec_find(
            index.push(e),
            namespace,
            name,
            from,
        ) == spec_find(index, namespace, name, from),
        spec_find(index, namespace, name, from) is None ==> spec_find(
            index.push(e),
            namespace,
            name,
            from,
        ) == if e.namespace == namespace && e.name == name {
            Some(e)
        } else {
            None
        },
    decreases index.len() - from,
{
    let longer = index.push(e);
    if from < index.len() {
        assert(longer[from] == index[from]);
        if !(index[from].namespace == namespace && index[from].name == name) {
            lemma_find_push(index, e, namespace, name, from + 1);
        }
    } else {
        assert(longer[from] == e);
        assert(spec_find(longer, namespace, name, from + 1) is None);
    }
}

/// A type that the cache knows stays the one that is found under its names
/// when another image is taken in: of two types with the same names, the
/// one that came first wins.
pub proof fn lemma_insert_keeps_found(
    index: Seq<EntryModel>,
    db: DatabaseModel,
    at: int,
    i: int,
    n: int,
    namespace: Seq<u8>,
    name: Seq<u8>,
)
    requires
        spec_find(index, namespace, name, 0) is Some,
    ensures
        spec_find(spec_insert_rows(index, db, at, i, n), namespace, name, 0) == spec_find(
            index,
            namespace,
            name,
            0,
        ),
    decreases n - i,
{
    if i < n {
        match (db.string(TableId::TypeDef, i, 2), db.string(TableId::TypeDef, i, 1)) {
            (Ok(found_namespace), Ok(found_name)) => {
                if spec_find(index, found_namespace, found_name, 0) is Some {
                    lemma_insert_keeps_found(index, db, at, i + 1, n, namespace, name);
                } else {
                    let e = EntryModel {
                        namespace: found_namespace,
                        name: found_name,
                        db: at,
                        row: i,
                    };
                    lemma_find_push(index, e, namespace, name, 0);
                    lemma_insert_keeps_found(index.push(e), db, at, i + 1, n, namespace, name);
                }
            },
            _ => {
                lemma_insert_keeps_found(index, db, at, i + 1, n, namespace, name);
            },
        }
    }
}

/// One step of the hash: the byte is mixed in, then the hash is multiplied.
pub open spec fn spec_hash_step(h: u64, b: u8) -> u64 {
    (h ^ (b as u64)).wrapping_mul(0x0000_0100_0000_01b3)
}

/// The hash `h` after the first `n` bytes of `s` were mixed in, in order.
pub open spec fn spec_hash_bytes(h: u64, s: Seq<u8>, n: int) -> u64
    decreases n,
{
    if n <= 0 {
        h
    } else {
        spec_hash_step(spec_hash_bytes(h, s, n - 1), s[n - 1])
    }
}

/// The hash of a namespace and a name: the bytes of the namespace, one
/// byte that no name holds, and the bytes of the name.
#[verifier::opaque]
pub open spec fn spec_hash_names(namespace: Seq<u8>, name: Seq<u8>) -> u64 {
    spec_hash_bytes(
        spec_hash_step(
            spec_hash_bytes(0xcbf2_9ce4_8422_2325, namespace, namespace.len() as int),
            0xff,
        ),
        name,
        name.len() as int,
    )
}

/// Mixes the bytes `s` into the hash `h`.
fn hash_bytes(h: u64, s: &[u8]) -> (r: u64)
    ensures
        r == spec_hash_bytes(h, s@, s@.len() as int),
{
    let mut r = h;
    let mut i: usize = 0;
    while i < s.len()
        invariant
            i <= s@.len(),
            r == spec_hash_bytes(h, s@, i as int),
        decreases s@.len() - i,
    {
        r = (r ^ (s[i] as u64)).wrapping_mul(0x0000_0100_0000_01b3);
        i += 1;
    }
    r
}

/// The hash of a namespace and a name.
pub fn hash_names(namespace: &[u8], name: &[u8]) -> (r: u64)
    ensures
        r == spec_hash_names(namespace@, name@),
{
    reveal(spec_hash_names);
    let h = hash_bytes(0xcbf2_9ce4_8422_2325, namespace);
    let h = (h ^ 0xff).wrapping_mul(0x0000_0100_0000_01b3);
    hash_bytes(h, name)
}

/// Every position in a bucket is that of an entry whose names have the
/// hash of the bucket.
pub open spec fn buckets_sound(index: Seq<EntryModel>, buckets: Map<u64, Vec<usize>>) -> bool {
    forall|k: u64, t: int|
        buckets.contains_key(k) && 0 <= t < buckets[k]@.len() ==> (#[trigger] buckets[k]@[t])
            < index.len() && spec_hash_names(
            index[buckets[k]@[t] as int].namespace,
            index[buckets[k]@[t] as int].name,
        ) == k
}

/// Every entry stands in the bucket of the hash of its names.
pub open spec fn buckets_complete(index: Seq<EntryModel>, buckets: Map<u64, Vec<usize>>) -> bool {
    forall|i: int|
        0 <= i < index.len() ==> buckets.contains_key(
            spec_hash_names((#[trigger] index[i]).namespace, index[i].name),
        ) && buckets[spec_hash_names(index[i].namespace, index[i].name)]@.contains(i as usize)
}

/// Names whose hash has no bucket are not known.
proof fn lemma_no_bucket(
    index: Seq<EntryModel>,
    buckets: Map<u64, Vec<usize>>,
    namespace: Seq<u8>,
    name: Seq<u8>,
)
    requires
        buckets_complete(index, buckets),
        !buckets.contains_key(spec_hash_names(namespace, name)),
    ensures
        spec_find(index, namespace, name, 0) is None,
{
    lemma_find(index, namespace, name, 0);
    if spec_find(index, namespace, name, 0) is Some {
        let i = choose|i: int|
            0 <= i < index.len() && index[i] == spec_find(index, namespace, name, 0).unwrap()
                && index[i].namespace == namespace && index[i].name == name;
        assert(buckets.contains_key(spec_hash_names(index[i].namespace, index[i].name)));
    }
}

/// Names that no entry of the bucket of their hash has are not known.
proof fn lemma_bucket_miss(
    index: Seq<EntryModel>,
    buckets: Map<u64, Vec<usize>>,
    namespace: Seq<u8>,
    name: Seq<u8>,
)
    requires
        index.len() <= usize::MAX,
        buckets_complete(index, buckets),
        buckets.contains_key(spec_hash_names(namespace, name)),
        forall|u: int|
            0 <= u < buckets[spec_hash_names(namespace, name)]@.len() ==> !(index[(
            #[trigger] buckets[spec_hash_names(namespace, name)]@[u]) as int].namespace
                == namespace && index[buckets[spec_hash_names(namespace, name)]@[u] as int].name
                == name),
    ensures
        spec_find(index, namespace, name, 0) is None,
{
    lemma_find(index, namespace, name, 0);
    if spec_find(index, namespace, name, 0) is Some {
        let h = spec_hash_names(namespace, name);
        let i = choose|i: int|
            0 <= i < index.len() && index[i] == spec_find(index, namespace, name, 0).unwrap()
                && index[i].namespace == namespace && index[i].name == name;
        assert(buckets[spec_hash_names(index[i].namespace, index[i].name)]@.contains(i as usize));
        let u = choose|u: int| 0 <= u < buckets[h]@.len() && buckets[h]@[u] == i as usize;
        assert(index[buckets[h]@[u] as int] == index[i]);
    }
}

/// Where no two entries have the same names, an entry with the names that
/// are looked for is the one that is found.
proof fn lemma_hit(index: Seq<EntryModel>, i: int, namespace: Seq<u8>, name: Seq<u8>)
    requires
        0 <= i < index.len(),
        index[i].namespace == namespace,
        index[i].name == name,
        forall|a: int, b: int|
            0 <= a < b < index.len() ==> !((#[trigger] index[a]).namespace == (
            #[trigger] index[b]).namespace && index[a].name == index[b].name),
    ensures
        spec_find(index, namespace, name, 0) == Some(index[i]),
{
    lemma_find(index, namespace, name, 0);
    if spec_find(index, namespace, name, 0) is Some {
        let j = choose|j: int|
            0 <= j < index.len() && index[j] == spec_find(index, namespace, name, 0).unwrap()
                && index[j].namespace == namespace && index[j].name == name;
        if j < i {
            assert(!(index[j].namespace == index[i].namespace && index[j].name == index[i].name));
        } else if i < j {
            assert(!(index[i].namespace == index[j].namespace && index[i].name == index[j].name));
        }
    }
}

/// Several loaded images, and the types that they define by namespace and
/// name. It only grows. Of two types with the same namespace and name, the
/// one that came first is the one that is found.
///
/// An image is taken in through `&mut`, and is handed out by its position.
/// The types are found through a map from the hash of their names to their
/// places in the order of arrival.
pub struct Cache<'db> {
    databases: FrozenVec<Box<Database<'db>>>,
    entries: Vec<CacheEntry<'db>>,
    /// For each hash of a namespace and a name, where in `entries` the
    /// types with that hash stand.
    buckets: HashMap<u64, Vec<usize>>,
}

impl<'db> CacheEntry<'db> {
    pub closed spec fn model(&self) -> EntryModel {
        EntryModel {
            namespace: self.namespace.spec_bytes(),
            name: self.name.spec_bytes(),
            db: self.db as int,
            row: self.row as int,
        }
    }
}

impl<'db> View for Cache<'db> {
    type V = CacheModel;

    closed spec fn view(&self) -> CacheModel {
        CacheModel {
            databases: frozen_databases(self.databases),
            index: Seq::new(self.entries@.len(), |i: int| self.entries@[i].model()),
        }
    }
}

impl<'db> Cache<'db> {
    /// The cache is as its model asks, and every entry is found through the
    /// hash of its names.
    pub closed spec fn wf(&self) -> bool {
        &&& self@.wf()
        &&& buckets_sound(self@.index, self.buckets@)
        &&& buckets_complete(self@.index, self.buckets@)
    }

    /// A cache that holds nothing.
    pub fn new() -> (r: Cache<'db>)
        ensures
            r@.databases.len() == 0,
            r@.index.len() == 0,
            r.wf(),
    {
        Cache { databases: frozen_new(), entries: Vec::new(), buckets: HashMap::new() }
    }

    /// How many images the cache holds.
    pub fn len(&self) -> (r: usize)
        ensures
            r == self@.databases.len(),
    {
        frozen_len(&self.databases)
    }

    /// The image at position `index`, in the order in which the images came.
    pub fn get(&self, index: usize) -> (r: Option<&Database<'db>>)
        ensures
            index < self@.databases.len() ==> r is Some && r.unwrap()@ == self@.databases[index as int],
            index >= self@.databases.len() ==> r is None,
    {
        frozen_get(&self.databases, index)
    }

    /// Where in the entries the type with the names `namespace` and `name`
    /// is: the entries with the hash of these names are looked through.
    fn position(&self, namespace: &[u8], name: &[u8]) -> (r: Option<usize>)
        requires
            self.wf(),
        ensures
            match self@.find(namespace@, name@) {
                Some(e) => r matches Some(i) && i < self.entries@.len() && self.entries@[i as int].model()
                    == e,
                None => r is None,
            },
    {
        broadcast use {
            vstd::std_specs::hash::axiom_contains_deref_key,
            vstd::std_specs::hash::axiom_maps_deref_key_to_value,
            vstd::std_specs::hash::axiom_u64_obeys_hash_table_key_model,
            vstd::std_specs::hash::axiom_random_state_builds_valid_hashers,
        };

        let h = hash_names(namespace, name);
        let ghost index = self@.index;
        match self.buckets.get(&h) {
            None => {
                proof {
                    lemma_no_bucket(index, self.buckets@, namespace@, name@);
                }
                None
            },
            Some(bucket) => {
                let mut t: usize = 0;
                while t < bucket.len()
                    invariant
                        t <= bucket@.len(),
                        self.wf(),
                        index == self@.index,
                        index.len() == self.entries@.len(),
                        self.buckets@.contains_key(h),
                        *bucket == self.buckets@[h],
                        h == spec_hash_names(namespace@, name@),
                        forall|u: int|
                            0 <= u < t ==> !(index[(#[trigger] bucket@[u]) as int].namespace
                                == namespace@ && index[bucket@[u] as int].name == name@),
                    decreases bucket@.len() - t,
                {
                    let i = bucket[t];
                    assert(i < index.len());
                    let e = &self.entries[i];
                    assert(index[i as int] == e.model());
                    if bytes_eq(e.namespace.as_bytes(), namespace) && bytes_eq(
                        e.name.as_bytes(),
                        name,
                    ) {
                        proof {
                            lemma_hit(index, i as int, namespace@, name@);
                        }
                        return Some(i);
                    }
                    t += 1;
                }
                let total = self.entries.len();
                proof {
                    lemma_bucket_miss(index, self.buckets@, namespace@, name@);
                }
                None
            },
        }
    }

    /// The type whose namespace and name have the bytes `namespace` and
    /// `name`: the first that came with these names.
    pub fn find_bytes<'a>(&'a self, namespace: &[u8], name: &[u8]) -> (r: Option<TypeDef<'a>>)
        requires
            self.wf(),
        ensures
            match self@.find(namespace@, name@) {
                Some(e) => r matches Some(t) && 0 <= e.db < self@.databases.len() && t.row().model()
                    == self@.databases[e.db] && t.row().table() == TableId::TypeDef
                    && t.row().index() == e.row,
                None => r is None,
            },
    {
        match self.position(namespace, name) {
            None => None,
            Some(i) => {
                let e = &self.entries[i];
                assert(entry_ok(self@.databases, self@.index[i as int]));
                match frozen_get(&self.databases, e.db) {
                    None => None,
                    Some(db) => Some(TypeDef::from_row(Row::new(db, TableId::TypeDef, e.row))),
                }
            },
        }
    }

    /// The type with the namespace `namespace` and the name `name`: the
    /// first that came with these names.
    pub fn find<'a>(&'a self, namespace: &str, name: &str) -> (r: Option<TypeDef<'a>>)
        requires
            self.wf(),
        ensures
            match self@.find(namespace.spec_bytes(), name.spec_bytes()) {
                Some(e) => r matches Some(t) && 0 <= e.db < self@.databases.len() && t.row().model()
                    == self@.databases[e.db] && t.row().table() == TableId::TypeDef
                    && t.row().index() == e.row,
                None => r is None,
            },
    {
        self.find_bytes(namespace.as_bytes(), name.as_bytes())
    }

    /// Notes the type `entry`, whose names are not yet known, at the end.
    fn push_entry(&mut self, entry: CacheEntry<'db>)
        requires
            old(self).wf(),
            entry_ok(old(self)@.databases, entry.model()),
            old(self)@.find(entry.model().namespace, entry.model().name) is None,
        ensures
            final(self).wf(),
            final(self)@.databases == old(self)@.databases,
            final(self)@.index == old(self)@.index.push(entry.model()),
    {
        broadcast use vstd::std_specs::hash::group_hash_axioms;

        let h = hash_names(entry.namespace.as_bytes(), entry.name.as_bytes());
        let n = self.entries.len();
        let ghost before = self@.index;
        let ghost old_entries = self.entries@;
        let ghost old_buckets = self.buckets@;
        proof {
            lemma_find(before, entry.model().namespace, entry.model().name, 0);
        }
        let mut bucket = match self.buckets.remove(&h) {
            Some(bucket) => bucket,
            None => Vec::new(),
        };
        let ghost old_bucket = bucket@;
        bucket.push(n);
        self.buckets.insert(h, bucket);
        self.entries.push(entry);
        proof {
            let after = self@.index;
            assert(after =~= before.push(entry.model()));
            assert forall|k: u64, t: int|
                self.buckets@.contains_key(k) && 0 <= t < self.buckets@[k]@.len() implies (
            #[trigger] self.buckets@[k]@[t]) < after.len() && spec_hash_names(
                after[self.buckets@[k]@[t] as int].namespace,
                after[self.buckets@[k]@[t] as int].name,
            ) == k by {
                if k == h {
                    if t < old_bucket.len() {
                        assert(old_buckets.contains_key(h));
                        assert(old_buckets[h]@[t] == self.buckets@[k]@[t]);
                        assert(after[old_buckets[h]@[t] as int] == before[old_buckets[h]@[t] as int]);
                    }
                } else {
                    assert(old_buckets.contains_key(k));
                    assert(old_buckets[k]@[t] == self.buckets@[k]@[t]);
                    assert(after[old_buckets[k]@[t] as int] == before[old_buckets[k]@[t] as int]);
                }
            }
            assert forall|i: int| 0 <= i < after.len() implies self.buckets@.contains_key(
                spec_hash_names((#[trigger] after[i]).namespace, after[i].name),
            ) && self.buckets@[spec_hash_names(after[i].namespace, after[i].name)]@.contains(
                i as usize,
            ) by {
                let k = spec_hash_names(after[i].namespace, after[i].name);
                if i < n {
                    assert(after[i] == before[i]);
                    assert(old_buckets.contains_key(k));
                    let u = choose|u: int|
                        0 <= u < old_buckets[k]@.len() && old_buckets[k]@[u] == i as usize;
                    assert(self.buckets@[k]@[u] == i as usize);
                } else {
                    assert(self.buckets@[k]@[old_bucket.len() as int] == i as usize);
                }
            }
        }
    }

    /// Takes the image `database` in at the end and notes every type that it
    /// defines under its namespace and name, unless a type with these names
    /// is known already. A type whose namespace or name cannot be read is
    /// passed over.
    ///
    /// The cache is taken by `&mut`, so no row of an image of the cache is
    /// held across an insertion, and what is given back is the position of
    /// the image, not a reference to it: `get` hands the image out
    /// afterwards. The position stays good for as long as the cache lives,
    /// since the images never move and none is ever taken out.
    pub fn insert(&mut self, database: Database<'db>) -> (r: usize)
        requires
            old(self).wf(),
        ensures
            r == old(self)@.databases.len(),
            final(self)@.databases == old(self)@.databases.push(database@),
            final(self)@.index == spec_insert_rows(
                old(self)@.index,
                database@,
                r as int,
                0,
                database@.row_count(TableId::TypeDef),
            ),
            final(self).wf(),
            final(self)@.wf(),
    {
        let at = frozen_len(&self.databases);
        let ghost model = database@;
        let ghost start = self@.index;
        let ghost old_entries = self.entries@;
        frozen_push(&mut self.databases, database);
        let ghost dbs = frozen_databases(self.databases);
        assert(self@.index =~= start);
        assert(self.entries@ == old_entries);
        let count = match frozen_get(&self.databases, at) {
            None => 0,
            Some(db) => db.get_table_info(TableId::TypeDef).len(),
        };
        let mut i: u32 = 0;
        while i < count
            invariant
                i <= count,
                count == model.row_count(TableId::TypeDef),
                frozen_databases(self.databases) == dbs,
                dbs == frozen_databases(old(self).databases).push(model),
                at == dbs.len() - 1,
                self.wf(),
                spec_insert_rows(start, model, at as int, 0, count as int) == spec_insert_rows(
                    self@.index,
                    model,
                    at as int,
                    i as int,
                    count as int,
                ),
            decreases count - i,
        {
            let names = match frozen_get(&self.databases, at) {
                None => None,
                Some(db) => {
                    let info = db.get_table_info(TableId::TypeDef);
                    proof {
                        crate::engine::columns::lemma_columns_len(TableId::TypeDef);
                        model.lemma_cell(TableId::TypeDef, i as int, 1);
                        model.lemma_cell(TableId::TypeDef, i as int, 2);
                    }
                    let name_index = match info.get_value(1, i) {
                        Ok(v) => v as u32,
                        Err(_) => 0,
                    };
                    let namespace_index = match info.get_value(2, i) {
                        Ok(v) => v as u32,
                        Err(_) => 0,
                    };
                    match (db.get_string(namespace_index), db.get_string(name_index)) {
                        (Ok(namespace), Ok(name)) => Some((namespace, name)),
                        _ => None,
                    }
                },
            };
            match names {
                Some((namespace, name)) => {
                    if self.position(namespace.as_bytes(), name.as_bytes()).is_none() {
                        self.push_entry(
                            CacheEntry { namespace: namespace, name: name, db: at, row: i },
                        );
                    }
                },
                None => {},
            }
            i += 1;
        }
        at
    }
}

} // verus!
