//! Events of a competition.

use crate::attr::{AttrMapModel, AttrModel, AttrValue, AttributeMap};
use crate::id::{format_id, id_text};
use crate::item::{
    id_field, read_id, read_text, read_timestamp, text_field, timestamp_field, DecodeError, Fault,
    Item, Key,
};
use crate::timestamp::{format_timestamp, rfc3339_text, Timestamp};
use vstd::prelude::*;

verus! {

pub const TABLE_NAME: &'static str = "events";

pub const ID_KEY: &'static str = "id";

pub const COMPETITION_ID_KEY: &'static str = "competition_id";

pub const ATHLETE_ID_KEY: &'static str = "athlete_id";

pub const NAME_KEY: &'static str = "name";

pub const DATE_TIME_KEY: &'static str = "date_time";

/// The fields of an event that a caller supplies.
#[derive(Clone, Debug, PartialEq)]
pub struct EventData {
    pub competition_id: u128,
    pub athlete_id: u128,
    pub name: String,
    pub date_time: Timestamp,
}

/// What a value of [`EventData`] holds, as the contracts see it.
pub struct EventDataView {
    pub competition_id: u128,
    pub athlete_id: u128,
    pub name: Seq<char>,
    pub date_time: Timestamp,
}

impl View for EventData {
    type V = EventDataView;

    open spec fn view(&self) -> EventDataView {
        EventDataView {
            competition_id: self.competition_id,
            athlete_id: self.athlete_id,
            name: self.name@,
            date_time: self.date_time,
        }
    }
}

/// An event with its identity.
#[derive(Clone, Debug, PartialEq)]
pub struct Event {
    pub id: u128,
    pub event_data: EventData,
}

/// What a value of [`Event`] holds, as the contracts see it.
pub struct EventView {
    pub id: u128,
    pub event_data: EventDataView,
}

impl View for Event {
    type V = EventView;

    open spec fn view(&self) -> EventView {
        EventView { id: self.id, event_data: self.event_data@ }
    }
}

/// Each field of an event's encoding holds that field's text.
proof fn lemma_encoded_fields(v: EventView)
    ensures
        ({
            let m = Event::encode(v);
            &&& m.contains_key(ID_KEY@) && m[ID_KEY@] == AttrModel::Text(id_text(v.id))
            &&& m.contains_key(COMPETITION_ID_KEY@) && m[COMPETITION_ID_KEY@] == AttrModel::Text(
                id_text(v.event_data.competition_id),
            )
            &&& m.contains_key(ATHLETE_ID_KEY@) && m[ATHLETE_ID_KEY@] == AttrModel::Text(
                id_text(v.event_data.athlete_id),
            )
            &&& m.contains_key(NAME_KEY@) && m[NAME_KEY@] == AttrModel::Text(v.event_data.name)
            &&& m.contains_key(DATE_TIME_KEY@) && m[DATE_TIME_KEY@] == AttrModel::Text(
                rfc3339_text(v.event_data.date_time.secs as int, v.event_data.date_time.nanos as int),
            )
        }),
{
    reveal_strlit("id");
    reveal_strlit("competition_id");
    reveal_strlit("athlete_id");
    reveal_strlit("name");
    reveal_strlit("date_time");
    assert(ID_KEY@.len() == 2);
    assert(COMPETITION_ID_KEY@.len() == 14);
    assert(ATHLETE_ID_KEY@.len() == 10);
    assert(NAME_KEY@.len() == 4);
    assert(DATE_TIME_KEY@.len() == 9);
}

impl Item for Event {
    type Payload = EventData;

    open spec fn valid(v: EventView) -> bool {
        v.event_data.date_time.wf()
    }

    open spec fn payload_valid(p: EventDataView) -> bool {
        p.date_time.wf()
    }

    open spec fn table() -> Seq<char> {
        TABLE_NAME@
    }

    open spec fn partition_key() -> Seq<char> {
        ID_KEY@
    }

    open spec fn sort_key() -> Option<Seq<char>> {
        None
    }

    open spec fn required() -> Set<Seq<char>> {
        set![ID_KEY@, COMPETITION_ID_KEY@, ATHLETE_ID_KEY@, NAME_KEY@, DATE_TIME_KEY@]
    }

    open spec fn key_of(v: EventView) -> Key {
        Key::Simple(v.id)
    }

    open spec fn encode(v: EventView) -> AttrMapModel {
        map![
            ID_KEY@ => AttrModel::Text(id_text(v.id)),
            COMPETITION_ID_KEY@ => AttrModel::Text(id_text(v.event_data.competition_id)),
            ATHLETE_ID_KEY@ => AttrModel::Text(id_text(v.event_data.athlete_id)),
            NAME_KEY@ => AttrModel::Text(v.event_data.name),
            DATE_TIME_KEY@ => AttrModel::Text(
                rfc3339_text(v.event_data.date_time.secs as int, v.event_data.date_time.nanos as int),
            ),
        ]
    }

    open spec fn decode(m: AttrMapModel) -> Result<EventView, Fault> {
        match id_field(m, ID_KEY@) {
            Err(e) => Err(e),
            Ok(id) => match id_field(m, COMPETITION_ID_KEY@) {
                Err(e) => Err(e),
                Ok(competition_id) => match id_field(m, ATHLETE_ID_KEY@) {
                    Err(e) => Err(e),
                    Ok(athlete_id) => match text_field(m, NAME_KEY@) {
                        Err(e) => Err(e),
                        Ok(name) => match timestamp_field(m, DATE_TIME_KEY@) {
                            Err(e) => Err(e),
                            Ok(date_time) => Ok(
                                EventView {
                                    id,
                                    event_data: EventDataView {
                                        competition_id,
                                        athlete_id,
                                        name,
                                        date_time,
                                    },
                                },
                            ),
                        },
                    },
                },
            },
        }
    }

    open spec fn built(id: u128, p: EventDataView) -> EventView {
        EventView { id, event_data: p }
    }

    fn table_name() -> (r: &'static str) {
        TABLE_NAME
    }

    fn partition_key_name() -> (r: &'static str) {
        ID_KEY
    }

    fn sort_key_name() -> (r: Option<&'static str>) {
        None
    }

    fn key(&self) -> (r: Key) {
        Key::Simple(self.id)
    }

    fn into_hashmap(&self) -> (r: AttributeMap) {
        let d = &self.event_data;
        let mut map = AttributeMap::new();
        map.insert(ID_KEY.to_owned(), AttrValue::S(format_id(self.id)));
        map.insert(COMPETITION_ID_KEY.to_owned(), AttrValue::S(format_id(d.competition_id)));
        map.insert(ATHLETE_ID_KEY.to_owned(), AttrValue::S(format_id(d.athlete_id)));
        map.insert(NAME_KEY.to_owned(), AttrValue::S(d.name.clone()));
        map.insert(DATE_TIME_KEY.to_owned(), AttrValue::S(format_timestamp(d.date_time)));
        assert(map@ =~= Self::encode(self@));
        map
    }

    fn from_hashmap(map: AttributeMap) -> (r: Result<Event, DecodeError>) {
        let r = match read_id(&map, ID_KEY) {
            Err(e) => Err(e),
            Ok(id) => match read_id(&map, COMPETITION_ID_KEY) {
                Err(e) => Err(e),
                Ok(competition_id) => match read_id(&map, ATHLETE_ID_KEY) {
                    Err(e) => Err(e),
                    Ok(athlete_id) => match read_text(&map, NAME_KEY) {
                        Err(e) => Err(e),
                        Ok(name) => match read_timestamp(&map, DATE_TIME_KEY) {
                            Err(e) => Err(e),
                            Ok(date_time) => Ok(
                                Event {
                                    id,
                                    event_data: EventData {
                                        competition_id,
                                        athlete_id,
                                        name,
                                        date_time,
                                    },
                                },
                            ),
                        },
                    },
                },
            },
        };
        proof {
            assert forall|v: EventView| Self::valid(v) && map@ == Self::encode(v) implies Self::decode(
                map@,
            ) == Ok::<EventView, Fault>(v) by {
                lemma_encoded_fields(v);
            }
        }
        r
    }

    fn from_payload(id: u128, payload: EventData) -> (r: Event) {
        Event { id, event_data: payload }
    }

    proof fn lemma_key_encoded(v: EventView) {
        lemma_encoded_fields(v);
    }

    proof fn lemma_missing_field(m: AttrMapModel, f: Seq<char>) {
    }
}

} // verus!
