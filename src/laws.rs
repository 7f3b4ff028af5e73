//! Properties of the store operations taken together, over the model of a
//! table in `crud`.

use crate::attr::AttrMapModel;
use crate::crud::{decoded_all, fetched, looked_up, stored_after_delete, stored_after_put, Missed, TableModel};
use crate::id::lemma_id_text_injective;
use crate::item::{key_attrs, lemma_key_attrs, partition_of, sort_of, Item, Key};
use vstd::prelude::*;

verus! {

/// FetchOne after Create: once a valid record has been written, a lookup of
/// that record's own key finds exactly the item that was written (which
/// `fetch_one_outcome` then returns as the record itself).
pub proof fn lemma_fetch_after_create<T: Item>(t: TableModel, rec: T::V)
    requires
        T::valid(rec),
    ensures
        key_attrs::<T>(T::key_of(rec)) is Some,
        looked_up(stored_after_put::<T>(t, T::encode(rec)), key_attrs::<T>(T::key_of(rec))->0)
            == Some(T::encode(rec)),
{
    lemma_key_attrs::<T>(rec);
}

/// FetchOne on a key under which nothing is stored, whether it was never
/// written or has been deleted, is `NotFound`.
pub proof fn lemma_fetch_absent<T: Item>(t: TableModel, k: AttrMapModel)
    ensures
        !t.contains_key(k) ==> fetched::<T>(looked_up(t, k)) == Err::<T::V, Missed>(Missed::NotFound),
        fetched::<T>(looked_up(stored_after_delete(t, k), k)) == Err::<T::V, Missed>(
            Missed::NotFound,
        ),
{
}

/// Delete is idempotent: deleting a key a second time leaves the table as
/// the first delete left it (and `delete_outcome` reports success for every
/// delete whose store call succeeded).
pub proof fn lemma_delete_twice(t: TableModel, k: AttrMapModel)
    ensures
        stored_after_delete(stored_after_delete(t, k), k) == stored_after_delete(t, k),
{
    assert(stored_after_delete(stored_after_delete(t, k), k) =~= stored_after_delete(t, k));
}

/// Composite keys. For a record type whose key has a sort value, a key
/// with a partition value alone addresses nothing (FetchOne and Delete
/// refuse it with `KeyShape`); and two records with different keys are
/// stored apart, even under the same partition value: after both are
/// written, the lookup of each key, by both of its values, finds that
/// record's item.
pub proof fn lemma_composite_keys<T: Item>(t: TableModel, a: T::V, b: T::V, p: u128)
    requires
        T::sort_key() is Some,
        T::valid(a),
        T::valid(b),
        T::key_of(a) != T::key_of(b),
    ensures
        key_attrs::<T>(Key::Simple(p)) is None,
        ({
            let both = stored_after_put::<T>(stored_after_put::<T>(t, T::encode(a)), T::encode(b));
            &&& looked_up(both, key_attrs::<T>(T::key_of(a))->0) == Some(T::encode(a))
            &&& looked_up(both, key_attrs::<T>(T::key_of(b))->0) == Some(T::encode(b))
        }),
{
    lemma_key_attrs::<T>(a);
    lemma_key_attrs::<T>(b);
    T::lemma_key_encoded(a);
    T::lemma_key_encoded(b);
    let ka = key_attrs::<T>(T::key_of(a))->0;
    let kb = key_attrs::<T>(T::key_of(b))->0;
    let pk = T::partition_key();
    let sk = T::sort_key()->0;
    if ka == kb {
        assert(ka[pk] == kb[pk]);
        assert(ka[sk] == kb[sk]);
        lemma_id_text_injective(partition_of(T::key_of(a)), partition_of(T::key_of(b)));
        lemma_id_text_injective(sort_of(T::key_of(a)), sort_of(T::key_of(b)));
    }
}

/// The item lacks one of the attributes that `T` requires.
pub open spec fn lacks_required<T: Item>(m: AttrMapModel) -> bool {
    exists|f: Seq<char>| T::required().contains(f) && !m.contains_key(f)
}

/// FetchAll over `n` scanned items, each of which either decodes or lacks a
/// required attribute, returns `n - k` records, `k` being the number of
/// items that lack one: all `n` when none does.
pub proof fn lemma_fetch_all_count<T: Item>(items: Seq<AttrMapModel>)
    requires
        forall|i: int|
            0 <= i < items.len() ==> T::decode(#[trigger] items[i]) is Ok || lacks_required::<T>(
                items[i],
            ),
    ensures
        decoded_all::<T>(items).len() == items.len() - items.filter(
            |m: AttrMapModel| lacks_required::<T>(m),
        ).len(),
    decreases items.len(),
{
    if items.len() > 0 {
        let rest = items.drop_last();
        assert forall|i: int| 0 <= i < rest.len() implies T::decode(#[trigger] rest[i]) is Ok
            || lacks_required::<T>(rest[i]) by {
            assert(rest[i] == items[i]);
        }
        lemma_fetch_all_count::<T>(rest);
        let last = items.last();
        assert(T::decode(items[items.len() - 1]) is Ok || lacks_required::<T>(items[items.len() - 1]));
        if lacks_required::<T>(last) {
            let f = choose|f: Seq<char>| T::required().contains(f) && !last.contains_key(f);
            T::lemma_missing_field(last, f);
        }
        reveal(Seq::filter);
        assert(rest =~= items.drop_last());
    }
}

} // verus!
