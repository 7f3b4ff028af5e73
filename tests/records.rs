use entity_store::athlete::{Athlete, AthleteData};
use entity_store::athlete_event::AthleteEvent;
use entity_store::attr::{AttrValue, AttributeMap};
use entity_store::competition::{Competition, CompetitionData};
use entity_store::date::Date;
use entity_store::event::{Event, EventData};
use entity_store::item::{DecodeError, Item, Key};
use entity_store::timestamp::Timestamp;
use entity_store::user::{User, UserData};
use entity_store::user_athlete::UserAthlete;
use uuid::Uuid;

fn new_id() -> u128 {
    Uuid::new_v4().as_u128()
}

fn text_of(map: &AttributeMap, name: &str) -> String {
    match map.get(name) {
        Some(AttrValue::S(s)) => s.clone(),
        other => panic!("{name} holds {other:?}"),
    }
}

fn map_of(entries: &[(&str, AttrValue)]) -> AttributeMap {
    let mut map = AttributeMap::new();
    for (name, value) in entries {
        map.insert(name.to_string(), value.clone());
    }
    map
}

fn jane() -> AthleteData {
    AthleteData {
        first_name: "Jane".to_string(),
        last_name: "Doe".to_string(),
        bio: "...".to_string(),
        birthday: Date::new(1990, 1, 1).unwrap(),
    }
}

#[test]
fn test_athlete_into_hashmap() {
    let athlete = Athlete {
        id: new_id(),
        athlete_data: AthleteData {
            first_name: "John".to_string(),
            last_name: "Doe".to_string(),
            bio: "A bio".to_string(),
            birthday: Date::new(1990, 1, 1).unwrap(),
        },
    };
    let cloned_athlete = athlete.clone();
    let hashmap = cloned_athlete.into_hashmap();
    let athlete2 = Athlete::from_hashmap(hashmap).unwrap();
    assert_eq!(athlete, athlete2);
}

#[test]
fn test_athlete_event_into_hashmap() {
    let athlete_event = AthleteEvent { athlete_id: new_id(), event_id: new_id() };
    let cloned_athlete_event = athlete_event.clone();
    let hashmap = cloned_athlete_event.into_hashmap();
    let athlete_event2 = AthleteEvent::from_hashmap(hashmap).unwrap();
    assert_eq!(athlete_event, athlete_event2);
}

#[test]
fn test_competition_into_hashmap() {
    let competition = Competition {
        id: new_id(),
        competition_data: CompetitionData {
            name: "Test Competition".to_string(),
            location: "Test Location".to_string(),
            start_date: Date::new(2021, 1, 1).unwrap(),
            end_date: Date::new(2021, 1, 2).unwrap(),
        },
    };
    let cloned_competition = competition.clone();
    let map = competition.into_hashmap();
    let competition2 = Competition::from_hashmap(map).unwrap();
    assert_eq!(cloned_competition, competition2);
}

#[test]
fn test_event_into_hashmap() {
    let now = chrono::Utc::now();
    let event = Event {
        id: new_id(),
        event_data: EventData {
            competition_id: new_id(),
            athlete_id: new_id(),
            name: "100m".to_string(),
            date_time: Timestamp::new(now.timestamp(), now.timestamp_subsec_nanos()).unwrap(),
        },
    };
    let cloned_event = event.clone();
    let hashmap = cloned_event.into_hashmap();
    let event2 = Event::from_hashmap(hashmap).unwrap();
    assert_eq!(event, event2);
}

#[test]
fn test_user_into_hashmap() {
    let user = User {
        id: new_id(),
        user_data: UserData {
            username: "test".to_string(),
            athletes_following: vec![new_id(), new_id(), new_id()],
        },
    };
    let cloned_user = user.clone();
    let map = user.into_hashmap();
    let user2 = User::from_hashmap(map).unwrap();
    assert_eq!(cloned_user, user2);
}

#[test]
fn test_user_athlete_into_hashmap() {
    let user_athlete = UserAthlete { user_id: new_id(), athlete_id: new_id() };
    let cloned_user_athlete = user_athlete.clone();
    let hashmap = cloned_user_athlete.into_hashmap();
    let user_athlete2 = UserAthlete::from_hashmap(hashmap).unwrap();
    assert_eq!(user_athlete, user_athlete2);
}

#[test]
fn identifier_text_is_hyphenated_lower_hex() {
    let ua = UserAthlete::new(0xa1a2a3a4b1b2c1c2d1d2d3d4d5d6d7d8, 0);
    let map = ua.into_hashmap();
    assert_eq!(text_of(&map, "user_id"), "a1a2a3a4-b1b2-c1c2-d1d2-d3d4d5d6d7d8");
    assert_eq!(text_of(&map, "athlete_id"), "00000000-0000-0000-0000-000000000000");
}

#[test]
fn date_text_is_iso() {
    let mut data = jane();
    data.birthday = Date::new(7, 3, 9).unwrap();
    let athlete = Athlete { id: 1, athlete_data: data };
    let map = athlete.into_hashmap();
    assert_eq!(text_of(&map, "Birthday"), "0007-03-09");
    assert_eq!(text_of(&map, "Id"), "00000000-0000-0000-0000-000000000001");
    assert_eq!(text_of(&map, "FirstName"), "Jane");
}

#[test]
fn dates_outside_four_digits_round_trip() {
    for (y, m, d) in [(12345, 6, 7), (-1, 12, 31), (-262143, 1, 1), (262142, 12, 31)] {
        let mut data = jane();
        data.birthday = Date::new(y, m, d).unwrap();
        let athlete = Athlete { id: 7, athlete_data: data };
        let map = athlete.into_hashmap();
        if y == 12345 {
            assert_eq!(text_of(&map, "Birthday"), "+12345-06-07");
        }
        if y == -1 {
            assert_eq!(text_of(&map, "Birthday"), "-0001-12-31");
        }
        assert_eq!(Athlete::from_hashmap(map).unwrap(), athlete);
    }
}

#[test]
fn date_validity() {
    assert!(Date::new(2020, 2, 29).is_some());
    assert!(Date::new(2021, 2, 29).is_none());
    assert!(Date::new(1900, 2, 29).is_none());
    assert!(Date::new(2000, 2, 29).is_some());
    assert!(Date::new(2021, 4, 31).is_none());
    assert!(Date::new(2021, 13, 1).is_none());
    assert!(Date::new(2021, 1, 0).is_none());
    assert!(Date::new(262143, 1, 1).is_none());
}

#[test]
fn timestamp_text_is_rfc3339() {
    let event = Event {
        id: 2,
        event_data: EventData {
            competition_id: 3,
            athlete_id: 4,
            name: "100m".to_string(),
            date_time: Timestamp::new(0, 500_000_000).unwrap(),
        },
    };
    let map = event.into_hashmap();
    assert_eq!(text_of(&map, "date_time"), "1970-01-01T00:00:00.500+00:00");
    assert_eq!(Event::from_hashmap(map).unwrap(), event);
}

#[test]
fn timestamps_round_trip_at_the_ends_of_the_range() {
    for (secs, nanos) in [(-62167219200, 0), (253402300799, 999_999_999), (1, 1)] {
        let event = Event {
            id: 2,
            event_data: EventData {
                competition_id: 3,
                athlete_id: 4,
                name: String::new(),
                date_time: Timestamp::new(secs, nanos).unwrap(),
            },
        };
        let map = event.into_hashmap();
        assert_eq!(Event::from_hashmap(map).unwrap(), event);
    }
    assert!(Timestamp::new(253402300800, 0).is_none());
    assert!(Timestamp::new(0, 1_000_000_000).is_none());
}

#[test]
fn empty_follow_list_round_trips() {
    let user = User {
        id: 5,
        user_data: UserData { username: String::new(), athletes_following: vec![] },
    };
    assert_eq!(User::from_hashmap(user.into_hashmap()).unwrap(), user);
}

#[test]
fn missing_field_is_reported_by_name() {
    let map = map_of(&[
        ("Id", AttrValue::S("00000000-0000-0000-0000-000000000001".to_string())),
        ("FirstName", AttrValue::S("Jane".to_string())),
        ("Bio", AttrValue::S("...".to_string())),
        ("Birthday", AttrValue::S("1990-01-01".to_string())),
    ]);
    assert_eq!(Athlete::from_hashmap(map), Err(DecodeError::Missing("LastName".to_string())));
}

#[test]
fn malformed_fields_are_reported_by_name() {
    let good = Athlete { id: 9, athlete_data: jane() };
    let mut map = good.into_hashmap();
    map.insert("Birthday".to_string(), AttrValue::S("1990-02-30".to_string()));
    assert_eq!(Athlete::from_hashmap(map), Err(DecodeError::Malformed("Birthday".to_string())));

    let mut map = good.into_hashmap();
    map.insert("Id".to_string(), AttrValue::S("not-an-id".to_string()));
    assert_eq!(Athlete::from_hashmap(map), Err(DecodeError::Malformed("Id".to_string())));

    let mut map = good.into_hashmap();
    map.insert("Bio".to_string(), AttrValue::Ss(vec!["a".to_string()]));
    assert_eq!(Athlete::from_hashmap(map), Err(DecodeError::Malformed("Bio".to_string())));

    let user = User { id: 1, user_data: UserData { username: "u".to_string(), athletes_following: vec![2] } };
    let mut map = user.into_hashmap();
    map.insert(
        "athletes_following".to_string(),
        AttrValue::Ss(vec!["00000000-0000-0000-0000-000000000002".to_string(), "x".to_string()]),
    );
    assert_eq!(User::from_hashmap(map), Err(DecodeError::Malformed("athletes_following".to_string())));
}

#[test]
fn timestamp_outside_the_stored_range_is_malformed() {
    let event = Event {
        id: 2,
        event_data: EventData {
            competition_id: 3,
            athlete_id: 4,
            name: "x".to_string(),
            date_time: Timestamp::new(0, 0).unwrap(),
        },
    };
    let mut map = event.into_hashmap();
    map.insert("date_time".to_string(), AttrValue::S("0000-01-01T00:00:00+01:00".to_string()));
    assert_eq!(Event::from_hashmap(map), Err(DecodeError::Malformed("date_time".to_string())));
}

#[test]
fn other_accepted_identifier_forms_decode() {
    let map = map_of(&[
        ("user_id", AttrValue::S("A1A2A3A4B1B2C1C2D1D2D3D4D5D6D7D8".to_string())),
        ("athlete_id", AttrValue::S("{00000000-0000-0000-0000-00000000000f}".to_string())),
    ]);
    let ua = UserAthlete::from_hashmap(map).unwrap();
    assert_eq!(ua, UserAthlete::new(0xa1a2a3a4b1b2c1c2d1d2d3d4d5d6d7d8, 15));
}

#[test]
fn extra_attributes_are_ignored() {
    let ua = UserAthlete::new(1, 2);
    let mut map = ua.into_hashmap();
    map.insert("note".to_string(), AttrValue::Other);
    assert_eq!(UserAthlete::from_hashmap(map).unwrap(), ua);
}

#[test]
fn keys_have_the_declared_shape() {
    assert_eq!(Athlete { id: 4, athlete_data: jane() }.key(), Key::Simple(4));
    assert_eq!(UserAthlete::new(1, 2).key(), Key::Composite(1, 2));
    assert_eq!(AthleteEvent { athlete_id: 3, event_id: 8 }.key(), Key::Simple(3));
    assert_eq!(UserAthlete::sort_key_name(), Some("athlete_id"));
    assert_eq!(User::sort_key_name(), None);
    assert_eq!(Competition::table_name(), "competitions");
    assert_eq!(Event::partition_key_name(), "id");
}

#[test]
fn attribute_map_insert_replaces() {
    let mut map = AttributeMap::new();
    map.insert("a".to_string(), AttrValue::S("1".to_string()));
    map.insert("b".to_string(), AttrValue::S("2".to_string()));
    map.insert("a".to_string(), AttrValue::S("3".to_string()));
    assert_eq!(map.get("a"), Some(&AttrValue::S("3".to_string())));
    assert_eq!(map.get("c"), None);
    let mut entries = map.into_entries();
    entries.sort_by(|x, y| x.0.cmp(&y.0));
    assert_eq!(
        entries,
        vec![
            ("a".to_string(), AttrValue::S("3".to_string())),
            ("b".to_string(), AttrValue::S("2".to_string())),
        ]
    );
}
