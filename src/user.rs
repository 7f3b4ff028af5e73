//! Users, and the athletes each follows.

use crate::attr::{AttrMapModel, AttrModel, AttrValue, AttributeMap};
use crate::id::{format_id, id_text};
use crate::item::{
    id_field, id_set_field, id_texts, read_id, read_id_set, read_text, text_field, write_ids,
    DecodeError, Fault, Item, Key,
};
use vstd::prelude::*;

verus! {

pub const TABLE_NAME: &'static str = "users";

pub const ID_KEY: &'static str = "id";

pub const USERNAME_KEY: &'static str = "username";

pub const ATHLETES_FOLLOWING_KEY: &'static str = "athletes_following";

/// The fields of a user that a caller supplies.
#[derive(Clone, Debug, PartialEq)]
pub struct UserData {
    pub username: String,
    pub athletes_following: Vec<u128>,
}

/// What a value of [`UserData`] holds, as the contracts see it.
pub struct UserDataView {
    pub username: Seq<char>,
    pub athletes_following: Seq<u128>,
}

impl View for UserData {
    type V = UserDataView;

    open spec fn view(&self) -> UserDataView {
        UserDataView { username: self.username@, athletes_following: self.athletes_following@ }
    }
}

/// A user with its identity.
#[derive(Clone, Debug, PartialEq)]
pub struct User {
    pub id: u128,
    pub user_data: UserData,
}

/// What a value of [`User`] holds, as the contracts see it.
pub struct UserView {
    pub id: u128,
    pub user_data: UserDataView,
}

impl View for User {
    type V = UserView;

    open spec fn view(&self) -> UserView {
        UserView { id: self.id, user_data: self.user_data@ }
    }
}

/// Each field of a user's encoding holds that field's text.
proof fn lemma_encoded_fields(v: UserView)
    ensures
        ({
            let m = User::encode(v);
            &&& m.contains_key(ID_KEY@) && m[ID_KEY@] == AttrModel::Text(id_text(v.id))
            &&& m.contains_key(USERNAME_KEY@) && m[USERNAME_KEY@] == AttrModel::Text(
                v.user_data.username,
            )
            &&& m.contains_key(ATHLETES_FOLLOWING_KEY@) && m[ATHLETES_FOLLOWING_KEY@]
                == AttrModel::TextSet(id_texts(v.user_data.athletes_following))
        }),
{
    reveal_strlit("id");
    reveal_strlit("username");
    reveal_strlit("athletes_following");
    assert(ID_KEY@.len() == 2);
    assert(USERNAME_KEY@.len() == 8);
    assert(ATHLETES_FOLLOWING_KEY@.len() == 18);
}

impl Item for User {
    type Payload = UserData;

    open spec fn valid(v: UserView) -> bool {
        true
    }

    open spec fn payload_valid(p: UserDataView) -> bool {
        true
    }

    open spec fn table() -> Seq<char> {
        TABLE_NAME@
    }

    open spec fn partition_key() -> Seq<char> {
        ID_KEY@
    }

    open spec fn sort_key() -> Option<Seq<char>> {
        None
    }

    open spec fn required() -> Set<Seq<char>> {
        set![ID_KEY@, USERNAME_KEY@, ATHLETES_FOLLOWING_KEY@]
    }

    open spec fn key_of(v: UserView) -> Key {
        Key::Simple(v.id)
    }

    open spec fn encode(v: UserView) -> AttrMapModel {
        map![
            ID_KEY@ => AttrModel::Text(id_text(v.id)),
            USERNAME_KEY@ => AttrModel::Text(v.user_data.username),
            ATHLETES_FOLLOWING_KEY@ => AttrModel::TextSet(id_texts(v.user_data.athletes_following)),
        ]
    }

    open spec fn decode(m: AttrMapModel) -> Result<UserView, Fault> {
        match id_field(m, ID_KEY@) {
            Err(e) => Err(e),
            Ok(id) => match text_field(m, USERNAME_KEY@) {
                Err(e) => Err(e),
                Ok(username) => match id_set_field(m, ATHLETES_FOLLOWING_KEY@) {
                    Err(e) => Err(e),
                    Ok(athletes_following) => Ok(
                        UserView { id, user_data: UserDataView { username, athletes_following } },
                    ),
                },
            },
        }
    }

    open spec fn built(id: u128, p: UserDataView) -> UserView {
        UserView { id, user_data: p }
    }

    fn table_name() -> (r: &'static str) {
        TABLE_NAME
    }

    fn partition_key_name() -> (r: &'static str) {
        ID_KEY
    }

    fn sort_key_name() -> (r: Option<&'static str>) {
        None
    }

    fn key(&self) -> (r: Key) {
        Key::Simple(self.id)
    }

    fn into_hashmap(&self) -> (r: AttributeMap) {
        let following = write_ids(&self.user_data.athletes_following);
        let mut map = AttributeMap::new();
        map.insert(ID_KEY.to_owned(), AttrValue::S(format_id(self.id)));
        map.insert(USERNAME_KEY.to_owned(), AttrValue::S(self.user_data.username.clone()));
        map.insert(ATHLETES_FOLLOWING_KEY.to_owned(), AttrValue::Ss(following));
        assert(map@ =~= Self::encode(self@));
        map
    }

    fn from_hashmap(map: AttributeMap) -> (r: Result<User, DecodeError>) {
        let r = match read_id(&map, ID_KEY) {
            Err(e) => Err(e),
            Ok(id) => match read_text(&map, USERNAME_KEY) {
                Err(e) => Err(e),
                Ok(username) => match read_id_set(&map, ATHLETES_FOLLOWING_KEY) {
                    Err(e) => Err(e),
                    Ok(athletes_following) => Ok(
                        User { id, user_data: UserData { username, athletes_following } },
                    ),
                },
            },
        };
        proof {
            assert forall|v: UserView| Self::valid(v) && map@ == Self::encode(v) implies Self::decode(
                map@,
            ) == Ok::<UserView, Fault>(v) by {
                lemma_encoded_fields(v);
            }
        }
        r
    }

    fn from_payload(id: u128, payload: UserData) -> (r: User) {
        User { id, user_data: payload }
    }

    proof fn lemma_key_encoded(v: UserView) {
        lemma_encoded_fields(v);
    }

    proof fn lemma_missing_field(m: AttrMapModel, f: Seq<char>) {
    }
}

} // verus!
