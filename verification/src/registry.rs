//! The bookkeeping collections of the parsers: a set of strings that keeps
//! the order of first insertion, a registry that numbers names from 1 in the
//! order in which they are first seen, and lookup tables keyed by identifier
//! text.
//!
//! Strings are kept in vstd's `StringHashMap` and `StringHashSet`: vstd's
//! specifications of std's `HashMap`, `HashSet` and `BTreeMap` hold only for
//! key types that are known to obey its hashing or ordering model, and
//! `String` is not among them.
use vstd::hash_map::StringHashMap;
use vstd::hash_set::StringHashSet;
use vstd::prelude::*;

use crate::text::{is_null_marker, null_marker, views};

verus! {

/// The largest number of names a registry holds: the counter that numbers
/// them is a `u16` that is advanced past each id it hands out.
pub const MAX_REGISTERED: usize = 65534;

// ---------------------------------------------------------------------------
// Distinct strings in order of first insertion
// ---------------------------------------------------------------------------

/// A set of strings that remembers the order in which they were first added.
pub struct UniqueStrings {
    items: Vec<String>,
    seen: StringHashSet,
}

impl View for UniqueStrings {
    type V = Seq<Seq<char>>;

    closed spec fn view(&self) -> Seq<Seq<char>> {
        views(self.items@)
    }
}

/// `s` added at the end of `items` unless it is there already.
pub open spec fn insert_unique(items: Seq<Seq<char>>, s: Seq<char>) -> Seq<Seq<char>> {
    if items.contains(s) {
        items
    } else {
        items.push(s)
    }
}

impl UniqueStrings {
    /// No string occurs twice, and the lookup set holds exactly the strings.
    pub closed spec fn wf(&self) -> bool {
        &&& self@.no_duplicates()
        &&& self.seen@ == self@.to_set()
    }

    /// No string occurs twice in a well-formed set.
    pub proof fn lemma_wf(&self)
        requires
            self.wf(),
        ensures
            self@.no_duplicates(),
    {
    }

    /// An empty set.
    pub fn new() -> (r: Self)
        ensures
            r.wf(),
            r@ == Seq::<Seq<char>>::empty(),
    {
        let r = UniqueStrings { items: Vec::new(), seen: StringHashSet::new() };
        assert(r@.to_set() =~= Set::<Seq<char>>::empty());
        r
    }

    /// Whether `s` has been added.
    pub fn contains(&self, s: &str) -> (r: bool)
        requires
            self.wf(),
        ensures
            r == self@.contains(s@),
    {
        self.seen.contains(s)
    }

    /// Adds `s` unless it is there already.
    pub fn insert(&mut self, s: String)
        requires
            old(self).wf(),
        ensures
            final(self).wf(),
            final(self)@ == insert_unique(old(self)@, s@),
    {
        if !self.seen.contains(s.as_str()) {
            let ghost before = self@;
            let key = s.clone();
            self.seen.insert(key);
            self.items.push(s);
            assert(self@ =~= before.push(s@));
            assert forall|x: Seq<char>| self@.contains(x) <==> before.contains(x) || x == s@ by {
                if before.contains(x) {
                    let j = before.index_of(x);
                    assert(self@[j] == x);
                }
                if x == s@ {
                    assert(self@[before.len() as int] == x);
                }
                if self@.contains(x) {
                    let j = self@.index_of(x);
                    assert(j < before.len() ==> before[j] == x);
                }
            }
            assert(self@.to_set() =~= before.to_set().insert(s@));
            assert(self@.no_duplicates()) by {
                assert forall|i: int, j: int|
                    0 <= i < self@.len() && 0 <= j < self@.len() && i != j implies self@[i]
                    != self@[j] by {
                    if j == before.len() as int {
                        assert(before.contains(before[i]));
                    } else if i == before.len() as int {
                        assert(before.contains(before[j]));
                    }
                }
            }
        }
    }

    /// The number of strings.
    pub fn len(&self) -> (r: usize)
        ensures
            r == self@.len(),
    {
        self.items.len()
    }

    /// The strings in order of first insertion.
    pub fn items(&self) -> (r: &Vec<String>)
        ensures
            views(r@) == self@,
    {
        &self.items
    }
}

// ---------------------------------------------------------------------------
// Numbering of names
// ---------------------------------------------------------------------------

/// The id that a registry holding `names` gives to `name`: its position
/// counted from 1.
pub open spec fn registered_id(names: Seq<Seq<char>>, name: Seq<char>) -> Option<u16> {
    if names.contains(name) {
        Some((names.index_of(name) + 1) as u16)
    } else {
        None
    }
}

/// Numbers names 1, 2, 3, ... in the order in which they are registered.
pub struct IdRegistry {
    names: Vec<String>,
    index: StringHashMap<u16>,
}

impl View for IdRegistry {
    type V = Seq<Seq<char>>;

    closed spec fn view(&self) -> Seq<Seq<char>> {
        views(self.names@)
    }
}

impl IdRegistry {
    /// At most `MAX_REGISTERED` names, none twice, and the lookup table maps
    /// each name to its position counted from 1.
    pub closed spec fn wf(&self) -> bool {
        &&& self@.len() <= MAX_REGISTERED
        &&& self@.no_duplicates()
        &&& forall|k: Seq<char>| #[trigger]
            self.index@.contains_key(k) <==> self@.contains(k)
        &&& forall|i: int|
            0 <= i < self@.len() ==> #[trigger] self.index@[self@[i]] == (i + 1) as u16
    }

    /// A well-formed registry holds at most `MAX_REGISTERED` names, none
    /// twice.
    pub proof fn lemma_wf(&self)
        requires
            self.wf(),
        ensures
            self@.len() <= MAX_REGISTERED,
            self@.no_duplicates(),
    {
    }

    /// An empty registry.
    pub fn new() -> (r: Self)
        ensures
            r.wf(),
            r@ == Seq::<Seq<char>>::empty(),
    {
        IdRegistry { names: Vec::new(), index: StringHashMap::new() }
    }

    /// The number of registered names.
    pub fn len(&self) -> (r: usize)
        ensures
            r == self@.len(),
    {
        self.names.len()
    }

    /// The id of `name`, if it is registered.
    pub fn id_of(&self, name: &str) -> (r: Option<u16>)
        requires
            self.wf(),
        ensures
            r == registered_id(self@, name@),
    {
        match self.index.get(name) {
            Some(id) => {
                let ghost i = self@.index_of(name@);
                assert(self@[i] == name@);
                Some(*id)
            },
            None => None,
        }
    }

    /// Registers a new name; it gets the next id.
    pub fn register(&mut self, name: String) -> (id: u16)
        requires
            old(self).wf(),
            !old(self)@.contains(name@),
            old(self)@.len() < MAX_REGISTERED,
        ensures
            final(self).wf(),
            final(self)@ == old(self)@.push(name@),
            id == old(self)@.len() + 1,
    {
        let ghost before = self@;
        let n = self.names.len();
        let id: u16 = (n + 1) as u16;
        let key = name.clone();
        self.index.insert(key, id);
        self.names.push(name);
        assert(self@ =~= before.push(name@));
        assert forall|k: Seq<char>| #[trigger]
            self.index@.contains_key(k) <==> self@.contains(k) by {
            if k == name@ {
                assert(self@[n as int] == k);
            } else if before.contains(k) {
                let j = before.index_of(k);
                assert(self@[j] == k);
            } else if self@.contains(k) {
                let j = self@.index_of(k);
                assert(j < n ==> before[j] == k);
            }
        }
        assert forall|i: int| 0 <= i < self@.len() implies #[trigger] self.index@[self@[i]] == (i
            + 1) as u16 by {
            if i < n {
                assert(before[i] != name@);
            }
        }
        assert(self@.no_duplicates()) by {
            assert forall|i: int, j: int|
                0 <= i < self@.len() && 0 <= j < self@.len() && i != j implies self@[i]
                != self@[j] by {
                if j == n as int {
                    assert(before.contains(before[i]));
                } else if i == n as int {
                    assert(before.contains(before[j]));
                }
            }
        }
        id
    }

    /// The registered names in id order: the name with id `k` is at
    /// position `k - 1`.
    pub fn names(&self) -> (r: &Vec<String>)
        ensures
            views(r@) == self@,
    {
        &self.names
    }
}

/// In a registry without repeated names, the name at position `i` has id
/// `i + 1`.
pub proof fn lemma_registered_id_at(names: Seq<Seq<char>>, i: int)
    requires
        names.no_duplicates(),
        0 <= i < names.len(),
    ensures
        registered_id(names, names[i]) == Some((i + 1) as u16),
{
    assert(names.contains(names[i]));
    let j = names.index_of(names[i]);
    assert(names[j] == names[i]);
}

// ---------------------------------------------------------------------------
// Lookup tables
// ---------------------------------------------------------------------------

/// The table that inserting `pairs` in order builds: for a key given more
/// than once, the last value stays.
pub open spec fn map_from_pairs<V>(pairs: Seq<(Seq<char>, V)>) -> Map<Seq<char>, V>
    decreases pairs.len(),
{
    if pairs.len() == 0 {
        Map::empty()
    } else {
        map_from_pairs(pairs.drop_last()).insert(pairs.last().0, pairs.last().1)
    }
}


// ---------------------------------------------------------------------------
// Numbering the entries of a list field
// ---------------------------------------------------------------------------

/// The names that numbering `fields` adds to a registry holding `known`:
/// each field that is neither the missing-value marker nor known yet, once,
/// in order of first appearance.
pub open spec fn fresh_names(known: Seq<Seq<char>>, fields: Seq<Seq<char>>) -> Seq<Seq<char>>
    decreases fields.len(),
{
    if fields.len() == 0 {
        Seq::<Seq<char>>::empty()
    } else {
        let p = fresh_names(known, fields.drop_last());
        let f = fields.last();
        if f == null_marker() || known.contains(f) || p.contains(f) {
            p
        } else {
            p.push(f)
        }
    }
}

/// The ids, in a registry holding `names`, of the fields that are not the
/// missing-value marker, in field order (a repeated field repeats its id).
pub open spec fn field_ids(names: Seq<Seq<char>>, fields: Seq<Seq<char>>) -> Seq<u16>
    decreases fields.len(),
{
    if fields.len() == 0 {
        Seq::<u16>::empty()
    } else {
        let p = field_ids(names, fields.drop_last());
        if fields.last() == null_marker() {
            p
        } else {
            p.push(registered_id(names, fields.last())->Some_0)
        }
    }
}

/// A prefix of the fields adds no more names than all of them.
pub proof fn lemma_fresh_names_prefix(known: Seq<Seq<char>>, fields: Seq<Seq<char>>, i: int)
    requires
        0 <= i <= fields.len(),
    ensures
        fresh_names(known, fields.take(i)).len() <= fresh_names(known, fields).len(),
    decreases fields.len() - i,
{
    if i < fields.len() {
        lemma_fresh_names_prefix(known, fields, i + 1);
        assert(fields.take(i + 1).drop_last() =~= fields.take(i));
    } else {
        assert(fields.take(i) =~= fields);
    }
}

/// Adding a name does not change the ids of the names already there.
pub proof fn lemma_registered_id_push(names: Seq<Seq<char>>, x: Seq<char>, k: Seq<char>)
    requires
        names.push(x).no_duplicates(),
        names.contains(k),
    ensures
        registered_id(names.push(x), k) == registered_id(names, k),
{
    let j = names.index_of(k);
    assert(names[j] == k);
    let big = names.push(x);
    assert(big[j] == k);
    assert(big.contains(k));
    let jj = big.index_of(k);
    assert(big[jj] == k);
    assert(jj == j) by {
        if jj != j {
            assert(big[jj] != big[j]);
        }
    }
}

/// The ids of fields that are all registered do not change when a name is
/// added.
proof fn lemma_field_ids_push(names: Seq<Seq<char>>, x: Seq<char>, fields: Seq<Seq<char>>)
    requires
        names.push(x).no_duplicates(),
        forall|i: int|
            0 <= i < fields.len() && fields[i] != null_marker() ==> names.contains(
                #[trigger] fields[i],
            ),
    ensures
        field_ids(names.push(x), fields) == field_ids(names, fields),
    decreases fields.len(),
{
    if fields.len() > 0 {
        let t = fields.drop_last();
        assert forall|i: int| 0 <= i < t.len() && t[i] != null_marker() implies names.contains(
            #[trigger] t[i],
        ) by {
            assert(t[i] == fields[i]);
        }
        lemma_field_ids_push(names, x, t);
        if fields.last() != null_marker() {
            assert(fields[fields.len() - 1] == fields.last());
            lemma_registered_id_push(names, x, fields.last());
        }
    }
}

/// `a + b` contains exactly what `a` or `b` contains.
proof fn lemma_contains_concat(a: Seq<Seq<char>>, b: Seq<Seq<char>>, x: Seq<char>)
    ensures
        (a + b).contains(x) <==> a.contains(x) || b.contains(x),
{
    if a.contains(x) {
        let j = a.index_of(x);
        assert((a + b)[j] == x);
    }
    if b.contains(x) {
        let j = b.index_of(x);
        assert((a + b)[a.len() + j] == x);
    }
    if (a + b).contains(x) {
        let j = (a + b).index_of(x);
        if j < a.len() {
            assert(a[j] == x);
        } else {
            assert(b[j - a.len()] == x);
        }
    }
}

impl IdRegistry {
    /// How many names numbering `fields` would add.
    pub fn count_fresh(&self, fields: &Vec<String>) -> (r: usize)
        requires
            self.wf(),
        ensures
            r == fresh_names(self@, views(fields@)).len(),
    {
        let ghost fv = views(fields@);
        let mut fresh = UniqueStrings::new();
        let n = fields.len();
        let mut i: usize = 0;
        while i < n
            invariant
                self.wf(),
                n == fields@.len(),
                fv == views(fields@),
                i <= n,
                fresh.wf(),
                fresh@ == fresh_names(self@, fv.take(i as int)),
            decreases n - i,
        {
            assert(fv.take(i + 1).drop_last() =~= fv.take(i as int));
            assert(fv.take(i + 1).last() == fv[i as int]);
            let f = &fields[i];
            if !is_null_marker(f.as_str()) {
                if self.id_of(f.as_str()).is_none() {
                    if !fresh.contains(f.as_str()) {
                        fresh.insert(f.clone());
                    }
                }
            }
            i = i + 1;
        }
        assert(fv.take(n as int) =~= fv);
        fresh.len()
    }

    /// Numbers the entries of a list field: every entry that is neither the
    /// missing-value marker nor registered yet is registered, in order, and
    /// the result lists the id of every entry but the markers, in order.
    pub fn assign_ids(&mut self, fields: &Vec<String>) -> (ids: Vec<u16>)
        requires
            old(self).wf(),
            old(self)@.len() + fresh_names(old(self)@, views(fields@)).len() <= MAX_REGISTERED,
        ensures
            final(self).wf(),
            final(self)@ == old(self)@ + fresh_names(old(self)@, views(fields@)),
            ids@ == field_ids(final(self)@, views(fields@)),
    {
        let ghost fv = views(fields@);
        let ghost start = self@;
        let mut ids: Vec<u16> = Vec::new();
        let n = fields.len();
        let mut i: usize = 0;
        while i < n
            invariant
                self.wf(),
                n == fields@.len(),
                fv == views(fields@),
                i <= n,
                start.len() + fresh_names(start, fv).len() <= MAX_REGISTERED,
                self@ == start + fresh_names(start, fv.take(i as int)),
                ids@ == field_ids(self@, fv.take(i as int)),
                forall|j: int|
                    0 <= j < i && fv[j] != null_marker() ==> self@.contains(#[trigger] fv[j]),
            decreases n - i,
        {
            let ghost pre = fv.take(i as int);
            let ghost post = fv.take(i + 1);
            assert(post.drop_last() =~= pre);
            assert(post.last() == fv[i as int]);
            let ghost fresh_pre = fresh_names(start, pre);
            let ghost at_start = self@;
            proof {
                lemma_fresh_names_prefix(start, fv, i as int);
                lemma_contains_concat(start, fresh_pre, fv[i as int]);
            }
            let f = &fields[i];
            if !is_null_marker(f.as_str()) {
                match self.id_of(f.as_str()) {
                    Some(id) => {
                        ids.push(id);
                        assert(fresh_names(start, post) == fresh_pre);
                    },
                    None => {
                        assert(fresh_names(start, post) == fresh_pre.push(fv[i as int]));
                        proof {
                            lemma_fresh_names_prefix(start, fv, i + 1);
                        }
                        let ghost before = self@;
                        let id = self.register(f.clone());
                        assert(self@ =~= start + fresh_names(start, post));
                        proof {
                            assert forall|j: int|
                                0 <= j < pre.len() && pre[j] != null_marker() implies before.contains(
                                #[trigger] pre[j],
                            ) by {
                                assert(pre[j] == fv[j]);
                            }
                            lemma_field_ids_push(before, fv[i as int], pre);
                            lemma_registered_id_at(self@, before.len() as int);
                        }
                        ids.push(id);
                    },
                }
                assert(ids@ =~= field_ids(self@, post));
            } else {
                assert(fresh_names(start, post) == fresh_pre);
            }
            assert(self@ == at_start || self@ == at_start.push(fv[i as int]));
            proof {
                assert forall|j: int|
                    0 <= j < i + 1 && fv[j] != null_marker() implies self@.contains(
                    #[trigger] fv[j],
                ) by {
                    if j < i {
                        assert(at_start.contains(fv[j]));
                        let k = at_start.index_of(fv[j]);
                        assert(at_start[k] == fv[j]);
                        assert(self@[k] == fv[j]);
                    }
                    if j == i {
                        lemma_contains_concat(start, fresh_names(start, post), fv[j]);
                    }
                }
            }
            i = i + 1;
        }
        assert(fv.take(n as int) =~= fv);
        ids
    }
}

// ---------------------------------------------------------------------------
// Lookup tables
// ---------------------------------------------------------------------------

/// A table from identifier text (such as an IMDb `tconst`) to a number.
#[verifier::reject_recursive_types(V)]
pub struct IdTable<V> {
    map: StringHashMap<V>,
}

impl<V: Copy> View for IdTable<V> {
    type V = Map<Seq<char>, V>;

    closed spec fn view(&self) -> Map<Seq<char>, V> {
        self.map@
    }
}

impl<V: Copy> IdTable<V> {
    /// An empty table.
    pub fn new() -> (r: Self)
        ensures
            r@ == Map::<Seq<char>, V>::empty(),
    {
        IdTable { map: StringHashMap::new() }
    }

    /// Sets the number of `key`, replacing any earlier one.
    pub fn insert(&mut self, key: String, value: V)
        ensures
            final(self)@ == old(self)@.insert(key@, value),
    {
        self.map.insert(key, value);
    }

    /// The number of `key`, if it has one.
    pub fn get(&self, key: &str) -> (r: Option<V>)
        ensures
            r == (if self@.contains_key(key@) {
                Some(self@[key@])
            } else {
                None
            }),
    {
        match self.map.get(key) {
            Some(v) => Some(*v),
            None => None,
        }
    }
}

// ---------------------------------------------------------------------------
// Resolving the entries of a list field
// ---------------------------------------------------------------------------

/// The numbers that `table` gives the entries of a list field, in order,
/// skipping the missing-value marker and the entries it does not know.
pub open spec fn known_ids(table: Map<Seq<char>, u64>, fields: Seq<Seq<char>>) -> Seq<u64>
    decreases fields.len(),
{
    if fields.len() == 0 {
        Seq::<u64>::empty()
    } else {
        let p = known_ids(table, fields.drop_last());
        let f = fields.last();
        if f == null_marker() || !table.contains_key(f) {
            p
        } else {
            p.push(table[f])
        }
    }
}

/// The entries of a list field that `table` does not know, in order,
/// without the missing-value marker.
pub open spec fn unknown_keys(table: Map<Seq<char>, u64>, fields: Seq<Seq<char>>) -> Seq<
    Seq<char>,
>
    decreases fields.len(),
{
    if fields.len() == 0 {
        Seq::<Seq<char>>::empty()
    } else {
        let p = unknown_keys(table, fields.drop_last());
        let f = fields.last();
        if f == null_marker() || table.contains_key(f) {
            p
        } else {
            p.push(f)
        }
    }
}

/// `items` after inserting each of `new` in order into a set that keeps the
/// order of first insertion.
pub open spec fn insert_all_unique(items: Seq<Seq<char>>, new: Seq<Seq<char>>) -> Seq<Seq<char>>
    decreases new.len(),
{
    if new.len() == 0 {
        items
    } else {
        insert_unique(insert_all_unique(items, new.drop_last()), new.last())
    }
}

/// Looks up the entries of a list field: returns the numbers of the known
/// entries, and adds the unknown ones (but the missing-value marker) to
/// `unknown`.
pub fn resolve_ids(table: &IdTable<u64>, fields: &Vec<String>, unknown: &mut UniqueStrings) -> (ids:
    Vec<u64>)
    requires
        old(unknown).wf(),
    ensures
        final(unknown).wf(),
        ids@ == known_ids(table@, views(fields@)),
        final(unknown)@ == insert_all_unique(old(unknown)@, unknown_keys(table@, views(fields@))),
{
    let ghost fv = views(fields@);
    let ghost start = unknown@;
    let mut ids: Vec<u64> = Vec::new();
    let n = fields.len();
    let mut i: usize = 0;
    while i < n
        invariant
            n == fields@.len(),
            fv == views(fields@),
            i <= n,
            unknown.wf(),
            ids@ == known_ids(table@, fv.take(i as int)),
            unknown@ == insert_all_unique(start, unknown_keys(table@, fv.take(i as int))),
        decreases n - i,
    {
        let ghost post = fv.take(i + 1);
        assert(post.drop_last() =~= fv.take(i as int));
        assert(post.last() == fv[i as int]);
        let f = &fields[i];
        if !is_null_marker(f.as_str()) {
            match table.get(f.as_str()) {
                Some(id) => {
                    ids.push(id);
                },
                None => {
                    unknown.insert(f.clone());
                    let ghost u = unknown_keys(table@, post);
                    assert(u.drop_last() == unknown_keys(table@, fv.take(i as int)));
                },
            }
        }
        i = i + 1;
    }
    assert(fv.take(n as int) =~= fv);
    ids
}

// ---------------------------------------------------------------------------
// Laws
// ---------------------------------------------------------------------------

/// Once a name has an id, registering more names never changes it.
pub proof fn lemma_ids_stable_under_extension(
    names: Seq<Seq<char>>,
    extra: Seq<Seq<char>>,
    k: Seq<char>,
)
    requires
        (names + extra).no_duplicates(),
        names.contains(k),
    ensures
        registered_id(names + extra, k) == registered_id(names, k),
{
    let all = names + extra;
    let j = names.index_of(k);
    assert(names[j] == k);
    assert(all[j] == k);
    assert(all.contains(k));
    let jj = all.index_of(k);
    assert(all[jj] == k);
    assert(jj == j) by {
        if jj != j {
            assert(all[jj] != all[j]);
        }
    }
    assert(names.no_duplicates()) by {
        assert forall|a: int, b: int|
            0 <= a < names.len() && 0 <= b < names.len() && a != b implies names[a] != names[b] by {
            assert(all[a] == names[a] && all[b] == names[b]);
        }
    }
    lemma_registered_id_at(names, j);
}

/// Different registered names have different ids, each between 1 and the
/// number of names.
pub proof fn lemma_ids_distinct(names: Seq<Seq<char>>, a: Seq<char>, b: Seq<char>)
    requires
        names.no_duplicates(),
        names.len() <= MAX_REGISTERED,
        names.contains(a),
        names.contains(b),
        a != b,
    ensures
        registered_id(names, a) != registered_id(names, b),
        1 <= registered_id(names, a)->Some_0 <= names.len(),
{
    let i = names.index_of(a);
    let j = names.index_of(b);
    assert(names[i] == a);
    assert(names[j] == b);
}

/// Numbering a list field adds only names that were not registered, none
/// twice, and afterwards every entry but the missing-value marker is
/// registered.
pub proof fn lemma_fresh_names_complete(known: Seq<Seq<char>>, fields: Seq<Seq<char>>)
    requires
        known.no_duplicates(),
    ensures
        (known + fresh_names(known, fields)).no_duplicates(),
        forall|i: int|
            0 <= i < fields.len() && fields[i] != null_marker() ==> (known + fresh_names(
                known,
                fields,
            )).contains(#[trigger] fields[i]),
    decreases fields.len(),
{
    if fields.len() > 0 {
        let t = fields.drop_last();
        lemma_fresh_names_complete(known, t);
        let p = fresh_names(known, t);
        let f = fields.last();
        lemma_contains_concat(known, p, f);
        let q = fresh_names(known, fields);
        let all = known + q;
        if q != p {
            assert(q == p.push(f));
            assert(all =~= (known + p).push(f));
            assert forall|a: int, b: int|
                0 <= a < all.len() && 0 <= b < all.len() && a != b implies all[a] != all[b] by {
                if a == all.len() - 1 {
                    assert((known + p).contains(all[b]));
                } else if b == all.len() - 1 {
                    assert((known + p).contains(all[a]));
                }
            }
        }
        assert forall|i: int|
            0 <= i < fields.len() && fields[i] != null_marker() implies all.contains(
            #[trigger] fields[i],
        ) by {
            if i < t.len() {
                assert(t[i] == fields[i]);
                assert((known + p).contains(t[i]));
                let k = (known + p).index_of(t[i]);
                assert(all[k] == (known + p)[k]);
            } else {
                lemma_contains_concat(known, q, f);
                if q != p {
                    assert(q[q.len() - 1] == f);
                }
            }
        }
    }
}

/// A table built from pairs knows exactly the keys of the pairs, and gives
/// each key the value of its last pair.
pub proof fn lemma_map_from_pairs_last_wins<V>(pairs: Seq<(Seq<char>, V)>, i: int)
    requires
        0 <= i < pairs.len(),
        forall|j: int| i < j < pairs.len() ==> #[trigger] pairs[j].0 != pairs[i].0,
    ensures
        map_from_pairs(pairs).contains_key(pairs[i].0),
        map_from_pairs(pairs)[pairs[i].0] == pairs[i].1,
    decreases pairs.len(),
{
    if i < pairs.len() - 1 {
        let t = pairs.drop_last();
        assert forall|j: int| i < j < t.len() implies #[trigger] t[j].0 != t[i].0 by {
            assert(t[j] == pairs[j]);
        }
        lemma_map_from_pairs_last_wins(t, i);
        assert(pairs[pairs.len() - 1].0 != pairs[i].0);
    }
}

/// A table built from pairs has no key that no pair has.
pub proof fn lemma_map_from_pairs_keys<V>(pairs: Seq<(Seq<char>, V)>, k: Seq<char>)
    requires
        map_from_pairs(pairs).contains_key(k),
    ensures
        exists|j: int| 0 <= j < pairs.len() && #[trigger] pairs[j].0 == k,
    decreases pairs.len(),
{
    if pairs.len() > 0 && pairs.last().0 != k {
        lemma_map_from_pairs_keys(pairs.drop_last(), k);
        let j = choose|j: int| 0 <= j < pairs.len() - 1 && #[trigger] pairs.drop_last()[j].0 == k;
        assert(pairs[j] == pairs.drop_last()[j]);
    } else if pairs.len() > 0 {
        assert(pairs[pairs.len() - 1].0 == k);
    }
}

/// Inserting strings into a set that keeps the order of first insertion
/// keeps it free of repeats, and it then holds exactly the strings it held
/// and the inserted ones.
pub proof fn lemma_insert_all_unique(items: Seq<Seq<char>>, new: Seq<Seq<char>>)
    requires
        items.no_duplicates(),
    ensures
        insert_all_unique(items, new).no_duplicates(),
        insert_all_unique(items, new).to_set() == items.to_set() + new.to_set(),
    decreases new.len(),
{
    if new.len() > 0 {
        let t = new.drop_last();
        lemma_insert_all_unique(items, t);
        let p = insert_all_unique(items, t);
        let x = new.last();
        let q = insert_unique(p, x);
        if !p.contains(x) {
            assert forall|a: int, b: int|
                0 <= a < q.len() && 0 <= b < q.len() && a != b implies q[a] != q[b] by {
                if a == q.len() - 1 {
                    assert(p.contains(q[b]));
                } else if b == q.len() - 1 {
                    assert(p.contains(q[a]));
                }
            }
        }
        assert forall|y: Seq<char>|
            q.to_set().contains(y) <==> (items.to_set() + new.to_set()).contains(y) by {
            assert(p.to_set().contains(y) == (items.to_set() + t.to_set()).contains(y));
            if p.contains(y) {
                let k = p.index_of(y);
                assert(q[k] == y);
            }
            if q.contains(y) && y != x {
                let k = q.index_of(y);
                assert(p[k] == y);
            }
            if t.contains(y) {
                let k = t.index_of(y);
                assert(new[k] == y);
            }
            if new.contains(y) && y != x {
                let k = new.index_of(y);
                assert(t[k] == y);
            }
            if y == x {
                assert(new[new.len() - 1] == y);
                if !p.contains(x) {
                    assert(q[q.len() - 1] == y);
                }
            }
        }
        assert(q.to_set() =~= items.to_set() + new.to_set());
    }
}

/// Every id that numbering a list field hands out names a registered entry:
/// the `k`-th id is the position, counted from 1, of the `k`-th entry that is
/// not the missing-value marker.
pub proof fn lemma_field_ids_refer_to_names(names: Seq<Seq<char>>, fields: Seq<Seq<char>>)
    requires
        names.no_duplicates(),
        names.len() <= MAX_REGISTERED,
        forall|i: int|
            0 <= i < fields.len() && fields[i] != null_marker() ==> names.contains(
                #[trigger] fields[i],
            ),
    ensures
        field_ids(names, fields).len() == fields.filter(|f: Seq<char>| f != null_marker()).len(),
        forall|k: int|
            0 <= k < field_ids(names, fields).len() ==> {
                let id = #[trigger] field_ids(names, fields)[k];
                &&& 1 <= id <= names.len()
                &&& names[id - 1] == fields.filter(|f: Seq<char>| f != null_marker())[k]
            },
    decreases fields.len(),
{
    let pred = |f: Seq<char>| f != null_marker();
    if fields.len() > 0 {
        let t = fields.drop_last();
        assert forall|i: int| 0 <= i < t.len() && t[i] != null_marker() implies names.contains(
            #[trigger] t[i],
        ) by {
            assert(t[i] == fields[i]);
        }
        lemma_field_ids_refer_to_names(names, t);
        assert(fields.filter(pred) == if pred(fields.last()) {
            t.filter(pred).push(fields.last())
        } else {
            t.filter(pred)
        }) by {
            reveal_with_fuel(Seq::<_>::filter, 1);
            assert(fields =~= t.push(fields.last()));
        }
        let f = fields.last();
        if f != null_marker() {
            assert(fields[fields.len() - 1] == f);
            let j = names.index_of(f);
            assert(names[j] == f);
            lemma_registered_id_at(names, j);
        }
    } else {
        assert(fields.filter(pred) =~= Seq::<Seq<char>>::empty()) by {
            reveal_with_fuel(Seq::<_>::filter, 1);
        }
    }
}

/// The ids of a list field are the table's values for its entries that are
/// neither the missing-value marker nor unknown, one per such entry, in
/// order.
pub proof fn lemma_known_ids_are_filtered(table: Map<Seq<char>, u64>, fields: Seq<Seq<char>>)
    ensures
        known_ids(table, fields) == fields.filter(
            |f: Seq<char>| f != null_marker() && table.contains_key(f),
        ).map_values(|f: Seq<char>| table[f]),
        known_ids(table, fields).len() == fields.filter(
            |f: Seq<char>| f != null_marker() && table.contains_key(f),
        ).len(),
    decreases fields.len(),
{
    reveal_with_fuel(Seq::<_>::filter, 1);
    let pred = |f: Seq<char>| f != null_marker() && table.contains_key(f);
    if fields.len() > 0 {
        lemma_known_ids_are_filtered(table, fields.drop_last());
        let sub = fields.drop_last().filter(pred);
        if pred(fields.last()) {
            assert(sub.push(fields.last()).map_values(|f: Seq<char>| table[f]) =~= sub.map_values(
                |f: Seq<char>| table[f],
            ).push(table[fields.last()]));
        }
    } else {
        assert(fields.filter(pred).map_values(|f: Seq<char>| table[f]) =~= Seq::<u64>::empty());
    }
}

/// The unknown keys of a list field are its entries that are neither the
/// missing-value marker nor keys of the table, in order.
pub proof fn lemma_unknown_keys_are_filtered(table: Map<Seq<char>, u64>, fields: Seq<Seq<char>>)
    ensures
        unknown_keys(table, fields) == fields.filter(
            |f: Seq<char>| f != null_marker() && !table.contains_key(f),
        ),
    decreases fields.len(),
{
    reveal_with_fuel(Seq::<_>::filter, 1);
    if fields.len() > 0 {
        lemma_unknown_keys_are_filtered(table, fields.drop_last());
    }
}

} // verus!
