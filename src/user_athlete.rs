//! The follow relationship between a user and an athlete, stored under a
//! composite key: the user as partition, the athlete as sort value.

use crate::attr::{AttrMapModel, AttrModel, AttrValue, AttributeMap};
use crate::id::{format_id, id_text};
use crate::item::{id_field, read_id, DecodeError, Fault, Item, Key};
use vstd::prelude::*;

verus! {

pub const TABLE_NAME: &'static str = "user_athlete";

pub const USER_ID_KEY: &'static str = "user_id";

pub const ATHLETE_ID_KEY: &'static str = "athlete_id";

/// User `user_id` follows athlete `athlete_id`.
#[derive(Clone, Copy, Debug, PartialEq, Eq, Structural)]
pub struct UserAthlete {
    pub user_id: u128,
    pub athlete_id: u128,
}

impl View for UserAthlete {
    type V = UserAthlete;

    open spec fn view(&self) -> UserAthlete {
        *self
    }
}

impl UserAthlete {
    pub fn new(user_id: u128, athlete_id: u128) -> (r: UserAthlete)
        ensures
            r == (UserAthlete { user_id, athlete_id }),
    {
        UserAthlete { user_id, athlete_id }
    }
}

/// Each field of a relationship's encoding holds that field's text.
proof fn lemma_encoded_fields(v: UserAthlete)
    ensures
        ({
            let m = UserAthlete::encode(v);
            &&& USER_ID_KEY@ != ATHLETE_ID_KEY@
            &&& m.contains_key(USER_ID_KEY@) && m[USER_ID_KEY@] == AttrModel::Text(id_text(v.user_id))
            &&& m.contains_key(ATHLETE_ID_KEY@) && m[ATHLETE_ID_KEY@] == AttrModel::Text(
                id_text(v.athlete_id),
            )
        }),
{
    reveal_strlit("user_id");
    reveal_strlit("athlete_id");
    assert(USER_ID_KEY@.len() == 7);
    assert(ATHLETE_ID_KEY@.len() == 10);
}

impl Item for UserAthlete {
    type Payload = UserAthlete;

    open spec fn valid(v: UserAthlete) -> bool {
        true
    }

    open spec fn payload_valid(p: UserAthlete) -> bool {
        true
    }

    open spec fn table() -> Seq<char> {
        TABLE_NAME@
    }

    open spec fn partition_key() -> Seq<char> {
        USER_ID_KEY@
    }

    open spec fn sort_key() -> Option<Seq<char>> {
        Some(ATHLETE_ID_KEY@)
    }

    open spec fn required() -> Set<Seq<char>> {
        set![USER_ID_KEY@, ATHLETE_ID_KEY@]
    }

    open spec fn key_of(v: UserAthlete) -> Key {
        Key::Composite(v.user_id, v.athlete_id)
    }

    open spec fn encode(v: UserAthlete) -> AttrMapModel {
        map![
            USER_ID_KEY@ => AttrModel::Text(id_text(v.user_id)),
            ATHLETE_ID_KEY@ => AttrModel::Text(id_text(v.athlete_id)),
        ]
    }

    open spec fn decode(m: AttrMapModel) -> Result<UserAthlete, Fault> {
        match id_field(m, USER_ID_KEY@) {
            Err(e) => Err(e),
            Ok(user_id) => match id_field(m, ATHLETE_ID_KEY@) {
                Err(e) => Err(e),
                Ok(athlete_id) => Ok(UserAthlete { user_id, athlete_id }),
            },
        }
    }

    /// A relationship carries no identity of its own: it is its payload.
    open spec fn built(id: u128, p: UserAthlete) -> UserAthlete {
        p
    }

    fn table_name() -> (r: &'static str) {
        TABLE_NAME
    }

    fn partition_key_name() -> (r: &'static str) {
        USER_ID_KEY
    }

    fn sort_key_name() -> (r: Option<&'static str>) {
        Some(ATHLETE_ID_KEY)
    }

    fn key(&self) -> (r: Key) {
        Key::Composite(self.user_id, self.athlete_id)
    }

    fn into_hashmap(&self) -> (r: AttributeMap) {
        let mut map = AttributeMap::new();
        map.insert(USER_ID_KEY.to_owned(), AttrValue::S(format_id(self.user_id)));
        map.insert(ATHLETE_ID_KEY.to_owned(), AttrValue::S(format_id(self.athlete_id)));
        assert(map@ =~= Self::encode(self@));
        map
    }

    fn from_hashmap(map: AttributeMap) -> (r: Result<UserAthlete, DecodeError>) {
        let r = match read_id(&map, USER_ID_KEY) {
            Err(e) => Err(e),
            Ok(user_id) => match read_id(&map, ATHLETE_ID_KEY) {
                Err(e) => Err(e),
                Ok(athlete_id) => Ok(UserAthlete { user_id, athlete_id }),
            },
        };
        proof {
            assert forall|v: UserAthlete|
                Self::valid(v) && map@ == Self::encode(v) implies Self::decode(map@) == Ok::<
                UserAthlete,
                Fault,
            >(v) by {
                lemma_encoded_fields(v);
            }
        }
        r
    }

    fn from_payload(id: u128, payload: UserAthlete) -> (r: UserAthlete) {
        payload
    }

    proof fn lemma_key_encoded(v: UserAthlete) {
        lemma_encoded_fields(v);
    }

    proof fn lemma_missing_field(m: AttrMapModel, f: Seq<char>) {
    }
}

} // verus!
