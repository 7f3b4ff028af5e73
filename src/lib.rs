//! Persistence of domain records (competitions, athletes, events, users and
//! the relationships between them) in a schema-less key-value store.
//!
//! Each record type implements [`item::Item`]: it names its table and key
//! attributes and converts itself to and from a flat [`attr::AttributeMap`].
//! The generic operations of [`crud`] build the store requests for Create,
//! FetchOne, FetchAll and Delete and translate the store's answers back into
//! records, for any such type.

pub mod athlete;
pub mod athlete_event;
pub mod attr;
pub mod competition;
pub mod crud;
pub mod date;
pub mod event;
pub mod id;
pub mod item;
pub mod laws;
pub mod schema;
pub mod timestamp;
pub mod user;
pub mod user_athlete;
