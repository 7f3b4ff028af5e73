//! Competitions.

use crate::attr::{AttrMapModel, AttrModel, AttrValue, AttributeMap};
use crate::date::{date_text, format_date, Date};
use crate::id::{format_id, id_text};
use crate::item::{
    date_field, id_field, read_date, read_id, read_text, text_field, DecodeError, Fault, Item, Key,
};
use vstd::prelude::*;

verus! {

pub const TABLE_NAME: &'static str = "competitions";

pub const ID_KEY: &'static str = "Id";

pub const NAME_KEY: &'static str = "Name";

pub const LOCATION_KEY: &'static str = "Location";

pub const START_DATE_KEY: &'static str = "StartDate";

pub const END_DATE_KEY: &'static str = "EndDate";

/// The fields of a competition that a caller supplies.
#[derive(Clone, Debug, PartialEq)]
pub struct CompetitionData {
    pub name: String,
    pub location: String,
    pub start_date: Date,
    pub end_date: Date,
}

/// What a value of [`CompetitionData`] holds, as the contracts see it.
pub struct CompetitionDataView {
    pub name: Seq<char>,
    pub location: Seq<char>,
    pub start_date: Date,
    pub end_date: Date,
}

impl View for CompetitionData {
    type V = CompetitionDataView;

    open spec fn view(&self) -> CompetitionDataView {
        CompetitionDataView {
            name: self.name@,
            location: self.location@,
            start_date: self.start_date,
            end_date: self.end_date,
        }
    }
}

/// A competition with its identity.
#[derive(Clone, Debug, PartialEq)]
pub struct Competition {
    pub id: u128,
    pub competition_data: CompetitionData,
}

/// What a value of [`Competition`] holds, as the contracts see it.
pub struct CompetitionView {
    pub id: u128,
    pub competition_data: CompetitionDataView,
}

impl View for Competition {
    type V = CompetitionView;

    open spec fn view(&self) -> CompetitionView {
        CompetitionView { id: self.id, competition_data: self.competition_data@ }
    }
}

/// Each field of a competition's encoding holds that field's text.
proof fn lemma_encoded_fields(v: CompetitionView)
    ensures
        ({
            let m = Competition::encode(v);
            &&& m.contains_key(ID_KEY@) && m[ID_KEY@] == AttrModel::Text(id_text(v.id))
            &&& m.contains_key(NAME_KEY@) && m[NAME_KEY@] == AttrModel::Text(
                v.competition_data.name,
            )
            &&& m.contains_key(LOCATION_KEY@) && m[LOCATION_KEY@] == AttrModel::Text(
                v.competition_data.location,
            )
            &&& m.contains_key(START_DATE_KEY@) && m[START_DATE_KEY@] == AttrModel::Text(
                date_text(v.competition_data.start_date),
            )
            &&& m.contains_key(END_DATE_KEY@) && m[END_DATE_KEY@] == AttrModel::Text(
                date_text(v.competition_data.end_date),
            )
        }),
{
    reveal_strlit("Id");
    reveal_strlit("Name");
    reveal_strlit("Location");
    reveal_strlit("StartDate");
    reveal_strlit("EndDate");
    assert(ID_KEY@.len() == 2);
    assert(NAME_KEY@.len() == 4);
    assert(LOCATION_KEY@.len() == 8);
    assert(START_DATE_KEY@.len() == 9);
    assert(END_DATE_KEY@.len() == 7);
}

impl Item for Competition {
    type Payload = CompetitionData;

    open spec fn valid(v: CompetitionView) -> bool {
        v.competition_data.start_date.wf() && v.competition_data.end_date.wf()
    }

    open spec fn payload_valid(p: CompetitionDataView) -> bool {
        p.start_date.wf() && p.end_date.wf()
    }

    open spec fn table() -> Seq<char> {
        TABLE_NAME@
    }

    open spec fn partition_key() -> Seq<char> {
        ID_KEY@
    }

    open spec fn sort_key() -> Option<Seq<char>> {
        None
    }

    open spec fn required() -> Set<Seq<char>> {
        set![ID_KEY@, NAME_KEY@, LOCATION_KEY@, START_DATE_KEY@, END_DATE_KEY@]
    }

    open spec fn key_of(v: CompetitionView) -> Key {
        Key::Simple(v.id)
    }

    open spec fn encode(v: CompetitionView) -> AttrMapModel {
        map![
            ID_KEY@ => AttrModel::Text(id_text(v.id)),
            NAME_KEY@ => AttrModel::Text(v.competition_data.name),
            LOCATION_KEY@ => AttrModel::Text(v.competition_data.location),
            START_DATE_KEY@ => AttrModel::Text(date_text(v.competition_data.start_date)),
            END_DATE_KEY@ => AttrModel::Text(date_text(v.competition_data.end_date)),
        ]
    }

    open spec fn decode(m: AttrMapModel) -> Result<CompetitionView, Fault> {
        match id_field(m, ID_KEY@) {
            Err(e) => Err(e),
            Ok(id) => match text_field(m, NAME_KEY@) {
                Err(e) => Err(e),
                Ok(name) => match text_field(m, LOCATION_KEY@) {
                    Err(e) => Err(e),
                    Ok(location) => match date_field(m, START_DATE_KEY@) {
                        Err(e) => Err(e),
                        Ok(start_date) => match date_field(m, END_DATE_KEY@) {
                            Err(e) => Err(e),
                            Ok(end_date) => Ok(
                                CompetitionView {
                                    id,
                                    competition_data: CompetitionDataView {
                                        name,
                                        location,
                                        start_date,
                                        end_date,
                                    },
                                },
                            ),
                        },
                    },
                },
            },
        }
    }

    open spec fn built(id: u128, p: CompetitionDataView) -> CompetitionView {
        CompetitionView { id, competition_data: p }
    }

    fn table_name() -> (r: &'static str) {
        TABLE_NAME
    }

    fn partition_key_name() -> (r: &'static str) {
        ID_KEY
    }

    fn sort_key_name() -> (r: Option<&'static str>) {
        None
    }

    fn key(&self) -> (r: Key) {
        Key::Simple(self.id)
    }

    fn into_hashmap(&self) -> (r: AttributeMap) {
        let d = &self.competition_data;
        let mut map = AttributeMap::new();
        map.insert(ID_KEY.to_owned(), AttrValue::S(format_id(self.id)));
        map.insert(NAME_KEY.to_owned(), AttrValue::S(d.name.clone()));
        map.insert(LOCATION_KEY.to_owned(), AttrValue::S(d.location.clone()));
        map.insert(START_DATE_KEY.to_owned(), AttrValue::S(format_date(d.start_date)));
        map.insert(END_DATE_KEY.to_owned(), AttrValue::S(format_date(d.end_date)));
        assert(map@ =~= Self::encode(self@));
        map
    }

    fn from_hashmap(map: AttributeMap) -> (r: Result<Competition, DecodeError>) {
        let r = match read_id(&map, ID_KEY) {
            Err(e) => Err(e),
            Ok(id) => match read_text(&map, NAME_KEY) {
                Err(e) => Err(e),
                Ok(name) => match read_text(&map, LOCATION_KEY) {
                    Err(e) => Err(e),
                    Ok(location) => match read_date(&map, START_DATE_KEY) {
                        Err(e) => Err(e),
                        Ok(start_date) => match read_date(&map, END_DATE_KEY) {
                            Err(e) => Err(e),
                            Ok(end_date) => Ok(
                                Competition {
                                    id,
                                    competition_data: CompetitionData {
                                        name,
                                        location,
                                        start_date,
                                        end_date,
                                    },
                                },
                            ),
                        },
                    },
                },
            },
        };
        proof {
            assert forall|v: CompetitionView|
                Self::valid(v) && map@ == Self::encode(v) implies Self::decode(map@) == Ok::<
                CompetitionView,
                Fault,
            >(v) by {
                lemma_encoded_fields(v);
            }
        }
        r
    }

    fn from_payload(id: u128, payload: CompetitionData) -> (r: Competition) {
        Competition { id, competition_data: payload }
    }

    proof fn lemma_key_encoded(v: CompetitionView) {
        lemma_encoded_fields(v);
    }

    proof fn lemma_missing_field(m: AttrMapModel, f: Seq<char>) {
    }
}

} // verus!
