//! The participation of an athlete in an event.

use crate::attr::{AttrMapModel, AttrModel, AttrValue, AttributeMap};
use crate::id::{format_id, id_text};
use crate::item::{id_field, read_id, DecodeError, Fault, Item, Key};
use vstd::prelude::*;

verus! {

pub const TABLE_NAME: &'static str = "athlete_events";

pub const ATHLETE_ID_KEY: &'static str = "athlete_id";

pub const EVENT_ID_KEY: &'static str = "event_id";

/// Athlete `athlete_id` takes part in event `event_id`.
#[derive(Clone, Copy, Debug, PartialEq, Eq, Structural)]
pub struct AthleteEvent {
    pub athlete_id: u128,
    pub event_id: u128,
}

impl View for AthleteEvent {
    type V = AthleteEvent;

    open spec fn view(&self) -> AthleteEvent {
        *self
    }
}

/// Each field of a participation's encoding holds that field's text.
proof fn lemma_encoded_fields(v: AthleteEvent)
    ensures
        ({
            let m = AthleteEvent::encode(v);
            &&& m.contains_key(ATHLETE_ID_KEY@) && m[ATHLETE_ID_KEY@] == AttrModel::Text(
                id_text(v.athlete_id),
            )
            &&& m.contains_key(EVENT_ID_KEY@) && m[EVENT_ID_KEY@] == AttrModel::Text(id_text(v.event_id))
        }),
{
    reveal_strlit("athlete_id");
    reveal_strlit("event_id");
    assert(ATHLETE_ID_KEY@.len() == 10);
    assert(EVENT_ID_KEY@.len() == 8);
}

impl Item for AthleteEvent {
    type Payload = AthleteEvent;

    open spec fn valid(v: AthleteEvent) -> bool {
        true
    }

    open spec fn payload_valid(p: AthleteEvent) -> bool {
        true
    }

    open spec fn table() -> Seq<char> {
        TABLE_NAME@
    }

    open spec fn partition_key() -> Seq<char> {
        ATHLETE_ID_KEY@
    }

    open spec fn sort_key() -> Option<Seq<char>> {
        None
    }

    open spec fn required() -> Set<Seq<char>> {
        set![ATHLETE_ID_KEY@, EVENT_ID_KEY@]
    }

    open spec fn key_of(v: AthleteEvent) -> Key {
        Key::Simple(v.athlete_id)
    }

    open spec fn encode(v: AthleteEvent) -> AttrMapModel {
        map![
            ATHLETE_ID_KEY@ => AttrModel::Text(id_text(v.athlete_id)),
            EVENT_ID_KEY@ => AttrModel::Text(id_text(v.event_id)),
        ]
    }

    open spec fn decode(m: AttrMapModel) -> Result<AthleteEvent, Fault> {
        match id_field(m, ATHLETE_ID_KEY@) {
            Err(e) => Err(e),
            Ok(athlete_id) => match id_field(m, EVENT_ID_KEY@) {
                Err(e) => Err(e),
                Ok(event_id) => Ok(AthleteEvent { athlete_id, event_id }),
            },
        }
    }

    /// A relationship carries no identity of its own: it is its payload.
    open spec fn built(id: u128, p: AthleteEvent) -> AthleteEvent {
        p
    }

    fn table_name() -> (r: &'static str) {
        TABLE_NAME
    }

    fn partition_key_name() -> (r: &'static str) {
        ATHLETE_ID_KEY
    }

    fn sort_key_name() -> (r: Option<&'static str>) {
        None
    }

    fn key(&self) -> (r: Key) {
        Key::Simple(self.athlete_id)
    }

    fn into_hashmap(&self) -> (r: AttributeMap) {
        let mut map = AttributeMap::new();
        map.insert(ATHLETE_ID_KEY.to_owned(), AttrValue::S(format_id(self.athlete_id)));
        map.insert(EVENT_ID_KEY.to_owned(), AttrValue::S(format_id(self.event_id)));
        assert(map@ =~= Self::encode(self@));
        map
    }

    fn from_hashmap(map: AttributeMap) -> (r: Result<AthleteEvent, DecodeError>) {
        let r = match read_id(&map, ATHLETE_ID_KEY) {
            Err(e) => Err(e),
            Ok(athlete_id) => match read_id(&map, EVENT_ID_KEY) {
                Err(e) => Err(e),
                Ok(event_id) => Ok(AthleteEvent { athlete_id, event_id }),
            },
        };
        proof {
            assert forall|v: AthleteEvent|
                Self::valid(v) && map@ == Self::encode(v) implies Self::decode(map@) == Ok::<
                AthleteEvent,
                Fault,
            >(v) by {
                lemma_encoded_fields(v);
            }
        }
        r
    }

    fn from_payload(id: u128, payload: AthleteEvent) -> (r: AthleteEvent) {
        payload
    }

    proof fn lemma_key_encoded(v: AthleteEvent) {
        lemma_encoded_fields(v);
    }

    proof fn lemma_missing_field(m: AttrMapModel, f: Seq<char>) {
    }
}

} // verus!
