//! What a record type's table looks like, for the setup step that creates
//! missing tables before requests are served.

use crate::item::Item;
use vstd::prelude::*;

verus! {

/// The part an attribute plays in a table's key.
#[derive(Clone, Copy, Debug, PartialEq, Eq, Structural)]
pub enum KeyRole {
    /// The partition (hash) attribute.
    Partition,
    /// The sort (range) attribute.
    Sort,
}

/// One attribute of a table's key schema; its values are strings.
#[derive(Clone, Debug, PartialEq)]
pub struct KeyAttribute {
    pub name: String,
    pub role: KeyRole,
}

/// The key schema of `T`'s table: the partition attribute, then the sort
/// attribute where `T` has one.
pub fn key_schema<T: Item>() -> (r: Vec<KeyAttribute>)
    ensures
        r@.len() == (if T::sort_key() is Some {
            2int
        } else {
            1int
        }),
        r@[0].name@ == T::partition_key(),
        r@[0].role == KeyRole::Partition,
        T::sort_key() matches Some(s) ==> r@[1].name@ == s && r@[1].role == KeyRole::Sort,
{
    let mut schema: Vec<KeyAttribute> = Vec::new();
    schema.push(KeyAttribute { name: T::partition_key_name().to_owned(), role: KeyRole::Partition });
    match T::sort_key_name() {
        Some(s) => {
            schema.push(KeyAttribute { name: s.to_owned(), role: KeyRole::Sort });
        },
        None => {},
    }
    schema
}

/// Whether `name` is among the listed tables.
pub fn table_exists(tables: &Vec<String>, name: &str) -> (r: bool)
    ensures
        r == exists|i: int| 0 <= i < tables@.len() && #[trigger] tables@[i]@ == name@,
{
    let wanted = name.to_owned();
    let mut i: usize = 0;
    while i < tables.len()
        invariant
            wanted@ == name@,
            i <= tables@.len(),
            forall|j: int| 0 <= j < i ==> #[trigger] tables@[j]@ != name@,
        decreases tables@.len() - i,
    {
        if tables[i].eq(&wanted) {
            return true;
        }
        i += 1;
    }
    false
}

} // verus!
