//! Athletes.

use crate::attr::{AttrMapModel, AttrModel, AttrValue, AttributeMap};
use crate::date::{date_text, format_date, Date};
use crate::id::{format_id, id_text};
use crate::item::{
    date_field, id_field, read_date, read_id, read_text, text_field, DecodeError, Fault, Item, Key,
};
use vstd::prelude::*;

verus! {

pub const TABLE_NAME: &'static str = "athletes";

pub const ID_KEY: &'static str = "Id";

pub const FIRST_NAME_KEY: &'static str = "FirstName";

pub const LAST_NAME_KEY: &'static str = "LastName";

pub const BIO_KEY: &'static str = "Bio";

pub const BIRTHDAY_KEY: &'static str = "Birthday";

/// The fields of an athlete that a caller supplies.
#[derive(Clone, Debug, PartialEq)]
pub struct AthleteData {
    pub first_name: String,
    pub last_name: String,
    pub bio: String,
    pub birthday: Date,
}

/// What a value of [`AthleteData`] holds, as the contracts see it.
pub struct AthleteDataView {
    pub first_name: Seq<char>,
    pub last_name: Seq<char>,
    pub bio: Seq<char>,
    pub birthday: Date,
}

impl View for AthleteData {
    type V = AthleteDataView;

    open spec fn view(&self) -> AthleteDataView {
        AthleteDataView {
            first_name: self.first_name@,
            last_name: self.last_name@,
            bio: self.bio@,
            birthday: self.birthday,
        }
    }
}

/// An athlete with its identity.
#[derive(Clone, Debug, PartialEq)]
pub struct Athlete {
    pub id: u128,
    pub athlete_data: AthleteData,
}

/// What a value of [`Athlete`] holds, as the contracts see it.
pub struct AthleteView {
    pub id: u128,
    pub athlete_data: AthleteDataView,
}

impl View for Athlete {
    type V = AthleteView;

    open spec fn view(&self) -> AthleteView {
        AthleteView { id: self.id, athlete_data: self.athlete_data@ }
    }
}

impl Item for Athlete {
    type Payload = AthleteData;

    open spec fn valid(v: AthleteView) -> bool {
        v.athlete_data.birthday.wf()
    }

    open spec fn payload_valid(p: AthleteDataView) -> bool {
        p.birthday.wf()
    }

    open spec fn table() -> Seq<char> {
        TABLE_NAME@
    }

    open spec fn partition_key() -> Seq<char> {
        ID_KEY@
    }

    open spec fn sort_key() -> Option<Seq<char>> {
        None
    }

    open spec fn required() -> Set<Seq<char>> {
        set![ID_KEY@, FIRST_NAME_KEY@, LAST_NAME_KEY@, BIO_KEY@, BIRTHDAY_KEY@]
    }

    open spec fn key_of(v: AthleteView) -> Key {
        Key::Simple(v.id)
    }

    open spec fn encode(v: AthleteView) -> AttrMapModel {
        map![
            ID_KEY@ => AttrModel::Text(id_text(v.id)),
            FIRST_NAME_KEY@ => AttrModel::Text(v.athlete_data.first_name),
            LAST_NAME_KEY@ => AttrModel::Text(v.athlete_data.last_name),
            BIO_KEY@ => AttrModel::Text(v.athlete_data.bio),
            BIRTHDAY_KEY@ => AttrModel::Text(date_text(v.athlete_data.birthday)),
        ]
    }

    open spec fn decode(m: AttrMapModel) -> Result<AthleteView, Fault> {
        match id_field(m, ID_KEY@) {
            Err(e) => Err(e),
            Ok(id) => match text_field(m, FIRST_NAME_KEY@) {
                Err(e) => Err(e),
                Ok(first_name) => match text_field(m, LAST_NAME_KEY@) {
                    Err(e) => Err(e),
                    Ok(last_name) => match text_field(m, BIO_KEY@) {
                        Err(e) => Err(e),
                        Ok(bio) => match date_field(m, BIRTHDAY_KEY@) {
                            Err(e) => Err(e),
                            Ok(birthday) => Ok(
                                AthleteView {
                                    id,
                                    athlete_data: AthleteDataView {
                                        first_name,
                                        last_name,
                                        bio,
                                        birthday,
                                    },
                                },
                            ),
                        },
                    },
                },
            },
        }
    }

    open spec fn built(id: u128, p: AthleteDataView) -> AthleteView {
        AthleteView { id, athlete_data: p }
    }

    fn table_name() -> (r: &'static str) {
        TABLE_NAME
    }

    fn partition_key_name() -> (r: &'static str) {
        ID_KEY
    }

    fn sort_key_name() -> (r: Option<&'static str>) {
        None
    }

    fn key(&self) -> (r: Key) {
        Key::Simple(self.id)
    }

    fn into_hashmap(&self) -> (r: AttributeMap) {
        let mut map = AttributeMap::new();
        map.insert(ID_KEY.to_owned(), AttrValue::S(format_id(self.id)));
        map.insert(FIRST_NAME_KEY.to_owned(), AttrValue::S(self.athlete_data.first_name.clone()));
        map.insert(LAST_NAME_KEY.to_owned(), AttrValue::S(self.athlete_data.last_name.clone()));
        map.insert(BIO_KEY.to_owned(), AttrValue::S(self.athlete_data.bio.clone()));
        map.insert(BIRTHDAY_KEY.to_owned(), AttrValue::S(format_date(self.athlete_data.birthday)));
        assert(map@ =~= Self::encode(self@));
        map
    }

    fn from_hashmap(map: AttributeMap) -> (r: Result<Athlete, DecodeError>) {
        let r = match read_id(&map, ID_KEY) {
            Err(e) => Err(e),
            Ok(id) => match read_text(&map, FIRST_NAME_KEY) {
                Err(e) => Err(e),
                Ok(first_name) => match read_text(&map, LAST_NAME_KEY) {
                    Err(e) => Err(e),
                    Ok(last_name) => match read_text(&map, BIO_KEY) {
                        Err(e) => Err(e),
                        Ok(bio) => match read_date(&map, BIRTHDAY_KEY) {
                            Err(e) => Err(e),
                            Ok(birthday) => Ok(
                                Athlete {
                                    id,
                                    athlete_data: AthleteData { first_name, last_name, bio, birthday },
                                },
                            ),
                        },
                    },
                },
            },
        };
        proof {
            assert forall|v: AthleteView| Self::valid(v) && map@ == Self::encode(v) implies Self::decode(
                map@,
            ) == Ok::<AthleteView, Fault>(v) by {
                lemma_encoded_fields(v);
            }
        }
        r
    }

    fn from_payload(id: u128, payload: AthleteData) -> (r: Athlete) {
        Athlete { id, athlete_data: payload }
    }

    proof fn lemma_key_encoded(v: AthleteView) {
        lemma_encoded_fields(v);
    }

    proof fn lemma_missing_field(m: AttrMapModel, f: Seq<char>) {
    }
}

/// Each field of an athlete's encoding holds that field's text.
proof fn lemma_encoded_fields(v: AthleteView)
    ensures
        ({
            let m = Athlete::encode(v);
            &&& m.contains_key(ID_KEY@) && m[ID_KEY@] == AttrModel::Text(id_text(v.id))
            &&& m.contains_key(FIRST_NAME_KEY@) && m[FIRST_NAME_KEY@] == AttrModel::Text(
                v.athlete_data.first_name,
            )
            &&& m.contains_key(LAST_NAME_KEY@) && m[LAST_NAME_KEY@] == AttrModel::Text(
                v.athlete_data.last_name,
            )
            &&& m.contains_key(BIO_KEY@) && m[BIO_KEY@] == AttrModel::Text(v.athlete_data.bio)
            &&& m.contains_key(BIRTHDAY_KEY@) && m[BIRTHDAY_KEY@] == AttrModel::Text(
                date_text(v.athlete_data.birthday),
            )
        }),
{
    reveal_strlit("Id");
    reveal_strlit("FirstName");
    reveal_strlit("LastName");
    reveal_strlit("Bio");
    reveal_strlit("Birthday");
    assert(ID_KEY@.len() == 2);
    assert(FIRST_NAME_KEY@.len() == 9);
    assert(BIO_KEY@.len() == 3);
    assert(LAST_NAME_KEY@[0] != BIRTHDAY_KEY@[0]);
}

} // verus!
