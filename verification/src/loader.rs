//! Batch loading: the identifiers that a batch of keys asks the database
//! for, and the index by identifier that answers the batch.

use crate::ids::{BuildingId, LessorId, UserId, fits_i32};
use crate::records::{Building, Lessor, User};
use std::collections::HashMap;
use vstd::prelude::*;

verus! {

broadcast use vstd::std_specs::hash::group_hash_axioms;

/// A key of a batch: one of the schema's identifiers.
pub trait BatchKey: Sized {
    /// The 32-bit value of the key.
    spec fn key_value(&self) -> i32;

    fn value(&self) -> (r: i32)
        ensures
            r == self.key_value(),
    ;
}

impl BatchKey for BuildingId {
    open spec fn key_value(&self) -> i32 {
        self.0
    }

    fn value(&self) -> (r: i32) {
        self.0
    }
}

impl BatchKey for LessorId {
    open spec fn key_value(&self) -> i32 {
        self.0
    }

    fn value(&self) -> (r: i32) {
        self.0
    }
}

impl BatchKey for UserId {
    open spec fn key_value(&self) -> i32 {
        self.0
    }

    fn value(&self) -> (r: i32) {
        self.0
    }
}

/// A record that a batch can be answered with: it has a 64-bit identifier.
pub trait Keyed: Sized {
    spec fn key(&self) -> i64;

    fn record_id(&self) -> (r: i64)
        ensures
            r == self.key(),
    ;
}

impl Keyed for Building {
    open spec fn key(&self) -> i64 {
        self.id
    }

    fn record_id(&self) -> (r: i64) {
        self.id
    }
}

impl Keyed for Lessor {
    open spec fn key(&self) -> i64 {
        self.id
    }

    fn record_id(&self) -> (r: i64) {
        self.id
    }
}

impl Keyed for User {
    open spec fn key(&self) -> i64 {
        self.id
    }

    fn record_id(&self) -> (r: i64) {
        self.id
    }
}

pub open spec fn key_as_i64<K: BatchKey>(k: K) -> i64 {
    k.key_value() as i64
}

/// The database identifiers that a batch of keys asks for, in order.
pub fn batch_ids<K: BatchKey>(keys: &[K]) -> (ids: Vec<i64>)
    ensures
        ids@ == keys@.map_values(|k: K| key_as_i64(k)),
{
    let mut ids: Vec<i64> = Vec::new();
    let mut i: usize = 0;
    while i < keys.len()
        invariant
            i <= keys@.len(),
            ids@ == keys@.take(i as int).map_values(|k: K| key_as_i64(k)),
        decreases keys@.len() - i,
    {
        let v: i32 = keys[i].value();
        ids.push(v as i64);
        i = i + 1;
        assert(ids@ =~= keys@.take(i as int).map_values(|k: K| key_as_i64(k)));
    }
    assert(keys@.take(i as int) =~= keys@);
    ids
}

/// The records in order, each entered under its identifier when that fits
/// in `i32` (a later record replaces an earlier one with the same
/// identifier), the others left out.
pub open spec fn index_spec<T: Keyed>(s: Seq<T>) -> Map<i32, T>
    decreases s.len(),
{
    if s.len() == 0 {
        Map::empty()
    } else {
        let rest = index_spec(s.drop_last());
        let r = s.last();
        if fits_i32(r.key()) {
            rest.insert(r.key() as i32, r)
        } else {
            rest
        }
    }
}

/// The answer to a batch: the fetched records by their identifier.
pub fn index_by_id<T: Keyed>(records: Vec<T>) -> (m: HashMap<i32, T>)
    ensures
        m@ == index_spec(records@),
{
    broadcast use vstd::std_specs::vec::axiom_spec_into_iter;
    let ghost all: Seq<T> = records@;
    let mut m: HashMap<i32, T> = HashMap::new();
    for r in it: records.into_iter()
        invariant
            it.seq() == all,
            m@ == index_spec(all.take(it.index())),
    {
        let ghost k: int = it.index();
        assert(all.take(k + 1).drop_last() =~= all.take(k));
        let id: i64 = r.record_id();
        if id >= i32::MIN as i64 && id <= i32::MAX as i64 {
            m.insert(id as i32, r);
        }
    }
    assert(all.take(all.len() as int) =~= all);
    m
}

/// The index holds a record under an identifier exactly when some record
/// has that identifier, and it holds the last such record.
pub proof fn lemma_index_holds_last_record<T: Keyed>(s: Seq<T>, k: i32)
    ensures
        index_spec(s).contains_key(k) <==> exists|i: int| 0 <= i < s.len() && #[trigger] s[i].key() == k,
        index_spec(s).contains_key(k) ==> exists|i: int|
            0 <= i < s.len() && #[trigger] s[i].key() == k && index_spec(s)[k] == s[i] && forall|j: int|
                i < j < s.len() ==> #[trigger] s[j].key() != k,
    decreases s.len(),
{
    if s.len() > 0 {
        let p = s.drop_last();
        lemma_index_holds_last_record(p, k);
        let n = s.len() - 1;
        if s.last().key() == k {
            assert(s[n].key() == k);
        } else {
            if index_spec(p).contains_key(k) {
                let i = choose|i: int|
                    0 <= i < p.len() && #[trigger] p[i].key() == k && index_spec(p)[k] == p[i] && forall|j: int|
                        i < j < p.len() ==> #[trigger] p[j].key() != k;
                assert(s[i].key() == k);
                assert forall|j: int| i < j < s.len() implies #[trigger] s[j].key() != k by {
                    if j < n {
                        assert(s[j] == p[j]);
                    }
                }
            }
            assert forall|i: int| 0 <= i < s.len() && #[trigger] s[i].key() == k implies index_spec(
                p,
            ).contains_key(k) by {
                assert(i < n);
                assert(p[i] == s[i]);
            }
        }
    }
}

/// A batch of building keys asks the database for the keys' own numbers,
/// in order.
pub proof fn lemma_building_keys_ask_their_ids(keys: Seq<BuildingId>)
    ensures
        keys.map_values(|k: BuildingId| key_as_i64(k)) == keys.map_values(|k: BuildingId| k.0 as i64),
{
    assert(keys.map_values(|k: BuildingId| key_as_i64(k)) =~= keys.map_values(|k: BuildingId| k.0 as i64));
}

/// A batch of lessor keys asks the database for the keys' own numbers, in
/// order.
pub proof fn lemma_lessor_keys_ask_their_ids(keys: Seq<LessorId>)
    ensures
        keys.map_values(|k: LessorId| key_as_i64(k)) == keys.map_values(|k: LessorId| k.0 as i64),
{
    assert(keys.map_values(|k: LessorId| key_as_i64(k)) =~= keys.map_values(|k: LessorId| k.0 as i64));
}

/// A batch of user keys asks the database for the keys' own numbers, in
/// order.
pub proof fn lemma_user_keys_ask_their_ids(keys: Seq<UserId>)
    ensures
        keys.map_values(|k: UserId| key_as_i64(k)) == keys.map_values(|k: UserId| k.0 as i64),
{
    assert(keys.map_values(|k: UserId| key_as_i64(k)) =~= keys.map_values(|k: UserId| k.0 as i64));
}

/// The index of fetched buildings holds a building under a number exactly
/// when some fetched building has that number as its own id, and what it
/// holds there is a building with that id.
pub proof fn lemma_buildings_indexed_by_own_id(s: Seq<Building>, k: i32)
    ensures
        index_spec(s).contains_key(k) <==> exists|i: int| 0 <= i < s.len() && #[trigger] s[i].id == k,
        index_spec(s).contains_key(k) ==> index_spec(s)[k].id == k,
{
    lemma_index_holds_last_record(s, k);
    if index_spec(s).contains_key(k) {
        let i = choose|i: int|
            0 <= i < s.len() && #[trigger] s[i].key() == k && index_spec(s)[k] == s[i] && forall|j: int|
                i < j < s.len() ==> #[trigger] s[j].key() != k;
        assert(s[i].id == k);
    }
    assert forall|i: int| 0 <= i < s.len() && #[trigger] s[i].id == k implies index_spec(s).contains_key(k) by {
        assert(s[i].key() == k);
    }
}

/// The index of fetched lessors holds a lessor under a number exactly when
/// some fetched lessor has that number as its own id, and what it holds
/// there is a lessor with that id.
pub proof fn lemma_lessors_indexed_by_own_id(s: Seq<Lessor>, k: i32)
    ensures
        index_spec(s).contains_key(k) <==> exists|i: int| 0 <= i < s.len() && #[trigger] s[i].id == k,
        index_spec(s).contains_key(k) ==> index_spec(s)[k].id == k,
{
    lemma_index_holds_last_record(s, k);
    if index_spec(s).contains_key(k) {
        let i = choose|i: int|
            0 <= i < s.len() && #[trigger] s[i].key() == k && index_spec(s)[k] == s[i] && forall|j: int|
                i < j < s.len() ==> #[trigger] s[j].key() != k;
        assert(s[i].id == k);
    }
    assert forall|i: int| 0 <= i < s.len() && #[trigger] s[i].id == k implies index_spec(s).contains_key(k) by {
        assert(s[i].key() == k);
    }
}

/// The index of fetched users holds a user under a number exactly when
/// some fetched user has that number as its own id, and what it holds
/// there is a user with that id.
pub proof fn lemma_users_indexed_by_own_id(s: Seq<User>, k: i32)
    ensures
        index_spec(s).contains_key(k) <==> exists|i: int| 0 <= i < s.len() && #[trigger] s[i].id == k,
        index_spec(s).contains_key(k) ==> index_spec(s)[k].id == k,
{
    lemma_index_holds_last_record(s, k);
    if index_spec(s).contains_key(k) {
        let i = choose|i: int|
            0 <= i < s.len() && #[trigger] s[i].key() == k && index_spec(s)[k] == s[i] && forall|j: int|
                i < j < s.len() ==> #[trigger] s[j].key() != k;
        assert(s[i].id == k);
    }
    assert forall|i: int| 0 <= i < s.len() && #[trigger] s[i].id == k implies index_spec(s).contains_key(k) by {
        assert(s[i].key() == k);
    }
}

} // verus!
