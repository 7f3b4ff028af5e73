//! The four store operations (Create, FetchOne, FetchAll, Delete) for any
//! record type. Each operation is one store call: the functions here build
//! the request that goes to the store and translate the store's answer.

use crate::attr::{AttrMapModel, AttrValue, AttributeMap};
use crate::id::{format_id, fresh_id};
use crate::item::{key_attrs, key_names, DecodeError, Fault, Item, Key};
use vstd::prelude::*;

verus! {

/// The backing store's call failed; `message` is what it said.
#[derive(Debug, Clone, PartialEq)]
pub struct StoreError {
    pub message: String,
}

/// Why an operation did not succeed.
#[derive(Debug, Clone, PartialEq)]
pub enum CrudError {
    /// The store call itself failed.
    Store(StoreError),
    /// The stored item could not be decoded into a record.
    Decode(DecodeError),
    /// No item is stored under the key.
    NotFound,
    /// The key has a sort value where the record type has none, or lacks
    /// one where the record type has one.
    KeyShape,
}

/// A write of one whole item, replacing any item under the same key.
pub struct PutRequest {
    pub table: String,
    pub item: AttributeMap,
}

/// A point lookup or a delete of the item under `key`.
pub struct KeyRequest {
    pub table: String,
    pub key: AttributeMap,
}

/// The contents of one table: the key attributes of each stored item, to
/// the item.
pub type TableModel = Map<AttrMapModel, AttrMapModel>;

/// The table after a write of `item` to the table of `T`.
pub open spec fn stored_after_put<T: Item>(t: TableModel, item: AttrMapModel) -> TableModel {
    t.insert(item.restrict(key_names::<T>()), item)
}

/// The table after a delete of the item under `key`.
pub open spec fn stored_after_delete(t: TableModel, key: AttrMapModel) -> TableModel {
    t.remove(key)
}

/// What a point lookup of `key` finds.
pub open spec fn looked_up(t: TableModel, key: AttrMapModel) -> Option<AttrMapModel> {
    if t.contains_key(key) {
        Some(t[key])
    } else {
        None
    }
}

/// Why FetchOne found no record, as the contracts see it.
pub enum Missed {
    NotFound,
    Undecodable(Fault),
}

/// What FetchOne returns when the lookup found `found`.
pub open spec fn fetched<T: Item>(found: Option<AttrMapModel>) -> Result<T::V, Missed> {
    match found {
        None => Err(Missed::NotFound),
        Some(m) => match T::decode(m) {
            Ok(v) => Ok(v),
            Err(f) => Err(Missed::Undecodable(f)),
        },
    }
}

/// The records that FetchAll keeps from the scanned items, in scan order:
/// those that decode.
pub open spec fn decoded_all<T: Item>(items: Seq<AttrMapModel>) -> Seq<T::V>
    decreases items.len(),
{
    if items.len() == 0 {
        Seq::empty()
    } else {
        let kept = decoded_all::<T>(items.drop_last());
        match T::decode(items.last()) {
            Ok(v) => kept.push(v),
            Err(_) => kept,
        }
    }
}

pub open spec fn maps_view(items: Seq<AttributeMap>) -> Seq<AttrMapModel> {
    items.map_values(|m: AttributeMap| m@)
}

pub open spec fn records_view<T: View>(records: Seq<T>) -> Seq<T::V> {
    records.map_values(|r: T| r@)
}

/// The key attributes that address `key` in the table of `T`.
pub fn key_map<T: Item>(key: &Key) -> (r: Result<AttributeMap, CrudError>)
    ensures
        match key_attrs::<T>(*key) {
            Some(m) => r matches Ok(km) && km.wf() && km@ == m,
            None => r matches Err(CrudError::KeyShape),
        },
{
    let pk = T::partition_key_name();
    match (key, T::sort_key_name()) {
        (Key::Simple(p), None) => {
            let mut m = AttributeMap::new();
            m.insert(pk.to_owned(), AttrValue::S(format_id(*p)));
            assert(m@ =~= key_attrs::<T>(*key)->0);
            Ok(m)
        },
        (Key::Composite(p, s), Some(sk)) => {
            let mut m = AttributeMap::new();
            m.insert(pk.to_owned(), AttrValue::S(format_id(*p)));
            m.insert(sk.to_owned(), AttrValue::S(format_id(*s)));
            assert(m@ =~= key_attrs::<T>(*key)->0);
            Ok(m)
        },
        _ => Err(CrudError::KeyShape),
    }
}

/// Create, first half: the record that `payload` makes under the identity
/// `id`, and the write that stores it.
pub fn create_request_with_id<T: Item>(id: u128, payload: T::Payload) -> (r: (T, PutRequest))
    requires
        T::payload_valid(payload@),
    ensures
        r.0@ == T::built(id, payload@),
        T::valid(r.0@),
        r.1.table@ == T::table(),
        r.1.item.wf(),
        r.1.item@ == T::encode(r.0@),
{
    let record = T::from_payload(id, payload);
    let item = record.into_hashmap();
    let table = T::table_name().to_owned();
    (record, PutRequest { table, item })
}

/// Create, first half: the record that `payload` makes under a fresh random
/// identity, and the write that stores it.
pub fn create_request<T: Item>(payload: T::Payload) -> (r: (T, PutRequest))
    requires
        T::payload_valid(payload@),
    ensures
        exists|id: u128| r.0@ == T::built(id, payload@),
        T::valid(r.0@),
        r.1.table@ == T::table(),
        r.1.item.wf(),
        r.1.item@ == T::encode(r.0@),
{
    create_request_with_id(fresh_id(), payload)
}

/// Create, second half: the created record once the write succeeded.
pub fn create_outcome<T>(record: T, sent: Result<(), StoreError>) -> (r: Result<T, CrudError>)
    ensures
        match sent {
            Ok(()) => r == Ok::<T, CrudError>(record),
            Err(e) => r == Err::<T, CrudError>(CrudError::Store(e)),
        },
{
    match sent {
        Ok(()) => Ok(record),
        Err(e) => Err(CrudError::Store(e)),
    }
}

/// FetchOne, first half: the lookup of `key` in the table of `T`, or
/// `KeyShape` where the key does not have the shape of `T`'s keys.
pub fn fetch_one_request<T: Item>(key: &Key) -> (r: Result<KeyRequest, CrudError>)
    ensures
        match key_attrs::<T>(*key) {
            Some(m) => r matches Ok(q) && q.table@ == T::table() && q.key.wf() && q.key@ == m,
            None => r matches Err(CrudError::KeyShape),
        },
{
    match key_map::<T>(key) {
        Ok(k) => Ok(KeyRequest { table: T::table_name().to_owned(), key: k }),
        Err(e) => Err(e),
    }
}

/// FetchOne, second half: the record from what the lookup answered.
/// No item is `NotFound`; an item that does not decode is a `Decode` error.
pub fn fetch_one_outcome<T: Item>(answer: Result<Option<AttributeMap>, StoreError>) -> (r: Result<
    T,
    CrudError,
>)
    requires
        answer matches Ok(Some(m)) ==> m.wf(),
    ensures
        match answer {
            Err(e) => r == Err::<T, CrudError>(CrudError::Store(e)),
            Ok(found) => match fetched::<T>(
                match found {
                    Some(m) => Some(m@),
                    None => None,
                },
            ) {
                Ok(v) => r matches Ok(x) && x@ == v && T::valid(v),
                Err(Missed::NotFound) => r matches Err(CrudError::NotFound),
                Err(Missed::Undecodable(f)) => r matches Err(CrudError::Decode(e)) && e@ == f,
            },
        },
        forall|v: T::V|
            #![trigger T::encode(v)]
            (answer matches Ok(Some(m)) && T::valid(v) && m@ == T::encode(v)) ==> (r matches Ok(x)
                && x@ == v),
{
    match answer {
        Err(e) => Err(CrudError::Store(e)),
        Ok(None) => Err(CrudError::NotFound),
        Ok(Some(m)) => match T::from_hashmap(m) {
            Ok(x) => Ok(x),
            Err(e) => Err(CrudError::Decode(e)),
        },
    }
}

/// FetchAll: the records from what the scan answered, in scan order. An
/// item that does not decode is left out; only a failed scan is an error.
pub fn fetch_all_outcome<T: Item>(answer: Result<Vec<AttributeMap>, StoreError>) -> (r: Result<
    Vec<T>,
    CrudError,
>)
    requires
        answer matches Ok(items) ==> forall|i: int| 0 <= i < items@.len() ==> #[trigger] items@[i].wf(),
    ensures
        match answer {
            Err(e) => r == Err::<Vec<T>, CrudError>(CrudError::Store(e)),
            Ok(items) => r matches Ok(out) && records_view(out@) == decoded_all::<T>(
                maps_view(items@),
            ),
        },
{
    let mut items = match answer {
        Err(e) => return Err(CrudError::Store(e)),
        Ok(items) => items,
    };
    let ghost all = maps_view(items@);
    let n: usize = items.len();
    let mut out: Vec<T> = Vec::new();
    let mut i: usize = 0;
    while items.len() > 0
        invariant
            all.len() == n,
            i <= all.len(),
            items@.len() == all.len() - i,
            maps_view(items@) == all.skip(i as int),
            forall|j: int| 0 <= j < items@.len() ==> #[trigger] items@[j].wf(),
            records_view(out@) == decoded_all::<T>(all.take(i as int)),
        decreases items@.len(),
    {
        let ghost before = items@;
        assert(maps_view(before)[0] == all.skip(i as int)[0]);
        let m = items.remove(0);
        assert(m@ == all[i as int]);
        assert forall|j: int| 0 <= j < items@.len() implies #[trigger] maps_view(items@)[j] == all.skip(
            i + 1,
        )[j] by {
            assert(maps_view(before)[j + 1] == all.skip(i as int)[j + 1]);
        }
        assert(maps_view(items@) =~= all.skip(i + 1));
        assert(all.take(i + 1).drop_last() =~= all.take(i as int));
        match T::from_hashmap(m) {
            Ok(x) => {
                out.push(x);
                assert(records_view(out@) =~= decoded_all::<T>(all.take(i + 1)));
            },
            Err(_) => {},
        }
        i += 1;
    }
    assert(all.take(i as int) =~= all);
    Ok(out)
}

/// Delete, first half: the delete of `key` in the table of `T`, or
/// `KeyShape` where the key does not have the shape of `T`'s keys.
pub fn delete_request<T: Item>(key: &Key) -> (r: Result<KeyRequest, CrudError>)
    ensures
        match key_attrs::<T>(*key) {
            Some(m) => r matches Ok(q) && q.table@ == T::table() && q.key.wf() && q.key@ == m,
            None => r matches Err(CrudError::KeyShape),
        },
{
    match key_map::<T>(key) {
        Ok(k) => Ok(KeyRequest { table: T::table_name().to_owned(), key: k }),
        Err(e) => Err(e),
    }
}

/// Delete, second half: success whenever the call succeeded, whether or
/// not an item was there.
pub fn delete_outcome(sent: Result<(), StoreError>) -> (r: Result<(), CrudError>)
    ensures
        match sent {
            Ok(()) => r == Ok::<(), CrudError>(()),
            Err(e) => r == Err::<(), CrudError>(CrudError::Store(e)),
        },
{
    match sent {
        Ok(()) => Ok(()),
        Err(e) => Err(CrudError::Store(e)),
    }
}

} // verus!
