use entity_store::athlete::{Athlete, AthleteData};
use entity_store::attr::{AttrValue, AttributeMap};
use entity_store::crud::{
    create_outcome, create_request, create_request_with_id, delete_outcome, delete_request,
    fetch_all_outcome, fetch_one_outcome, fetch_one_request, CrudError, KeyRequest, StoreError,
};
use entity_store::date::Date;
use entity_store::item::{DecodeError, Item, Key};
use entity_store::schema::{key_schema, table_exists, KeyRole};
use entity_store::user_athlete::UserAthlete;

/// A table held in memory: items with their key attributes, as text.
struct Table {
    items: Vec<(Vec<(String, String)>, Vec<(String, AttrValue)>)>,
}

fn key_texts(map: AttributeMap) -> Vec<(String, String)> {
    let mut key: Vec<(String, String)> = map
        .into_entries()
        .into_iter()
        .map(|(k, v)| match v {
            AttrValue::S(s) => (k, s),
            other => panic!("key attribute {k} holds {other:?}"),
        })
        .collect();
    key.sort();
    key
}

fn rebuild(entries: &[(String, AttrValue)]) -> AttributeMap {
    let mut map = AttributeMap::new();
    for (k, v) in entries {
        map.insert(k.clone(), v.clone());
    }
    map
}

impl Table {
    fn new() -> Table {
        Table { items: Vec::new() }
    }

    fn put<T: Item>(&mut self, item: AttributeMap) {
        let entries = item.into_entries();
        let mut key = Vec::new();
        for attr in key_schema::<T>() {
            let (_, v) = entries.iter().find(|(k, _)| *k == attr.name).unwrap();
            match v {
                AttrValue::S(s) => key.push((attr.name.clone(), s.clone())),
                _ => panic!("key attribute is not a string"),
            }
        }
        key.sort();
        self.items.retain(|(k, _)| *k != key);
        self.items.push((key, entries));
    }

    fn get(&self, request: KeyRequest) -> Option<AttributeMap> {
        let key = key_texts(request.key);
        self.items.iter().find(|(k, _)| *k == key).map(|(_, e)| rebuild(e))
    }

    fn delete(&mut self, request: KeyRequest) {
        let key = key_texts(request.key);
        self.items.retain(|(k, _)| *k != key);
    }

    fn scan(&self) -> Vec<AttributeMap> {
        self.items.iter().map(|(_, e)| rebuild(e)).collect()
    }
}

fn jane() -> AthleteData {
    AthleteData {
        first_name: "Jane".to_string(),
        last_name: "Doe".to_string(),
        bio: "...".to_string(),
        birthday: Date::new(1990, 1, 1).unwrap(),
    }
}

fn create(table: &mut Table, data: AthleteData) -> Athlete {
    let (record, put) = create_request::<Athlete>(data);
    assert_eq!(put.table, "athletes");
    table.put::<Athlete>(put.item);
    create_outcome(record, Ok(())).unwrap()
}

fn fetch<T: Item>(table: &Table, key: Key) -> Result<T, CrudError> {
    let request = fetch_one_request::<T>(&key)?;
    fetch_one_outcome::<T>(Ok(table.get(request)))
}

fn delete<T: Item>(table: &mut Table, key: Key) -> Result<(), CrudError> {
    let request = delete_request::<T>(&key)?;
    table.delete(request);
    delete_outcome(Ok(()))
}

#[test]
fn create_fetch_delete_scenario() {
    let mut table = Table::new();
    let created = create(&mut table, jane());
    assert_eq!(created.athlete_data, jane());
    let fetched = fetch::<Athlete>(&table, Key::Simple(created.id)).unwrap();
    assert_eq!(fetched, created);
    assert_eq!(fetched.athlete_data.first_name, "Jane");
    assert_eq!(fetched.athlete_data.birthday, Date::new(1990, 1, 1).unwrap());
    delete::<Athlete>(&mut table, Key::Simple(created.id)).unwrap();
    assert_eq!(fetch::<Athlete>(&table, Key::Simple(created.id)), Err(CrudError::NotFound));
}

#[test]
fn identical_payloads_get_distinct_identities() {
    let mut table = Table::new();
    let a = create(&mut table, jane());
    let b = create(&mut table, jane());
    assert_ne!(a.id, b.id);
    assert_eq!(fetch_all_outcome::<Athlete>(Ok(table.scan())).unwrap().len(), 2);
}

#[test]
fn fetch_of_a_key_never_created_is_not_found() {
    let mut table = Table::new();
    create(&mut table, jane());
    assert_eq!(fetch::<Athlete>(&table, Key::Simple(42)), Err(CrudError::NotFound));
}

#[test]
fn delete_twice_succeeds_both_times() {
    let mut table = Table::new();
    let created = create(&mut table, jane());
    assert_eq!(delete::<Athlete>(&mut table, Key::Simple(created.id)), Ok(()));
    assert_eq!(delete::<Athlete>(&mut table, Key::Simple(created.id)), Ok(()));
    assert!(table.scan().is_empty());
}

#[test]
fn fetch_all_skips_items_that_do_not_decode() {
    let mut table = Table::new();
    let a = create(&mut table, jane());
    let b = create(&mut table, jane());
    let mut corrupt = AttributeMap::new();
    corrupt.insert("Id".to_string(), AttrValue::S("00000000-0000-0000-0000-000000000003".to_string()));
    corrupt.insert("FirstName".to_string(), AttrValue::S("No".to_string()));
    table.put::<Athlete>(corrupt);
    let all = fetch_all_outcome::<Athlete>(Ok(table.scan())).unwrap();
    assert_eq!(all, vec![a, b]);
}

#[test]
fn fetch_all_of_an_empty_table_is_empty() {
    assert_eq!(fetch_all_outcome::<Athlete>(Ok(Vec::new())), Ok(Vec::new()));
}

#[test]
fn failed_scan_is_a_store_error() {
    let error = StoreError { message: "timeout".to_string() };
    assert_eq!(
        fetch_all_outcome::<Athlete>(Err(error.clone())),
        Err(CrudError::Store(error))
    );
}

#[test]
fn store_errors_pass_through() {
    let error = StoreError { message: "denied".to_string() };
    let (record, _) = create_request_with_id::<Athlete>(5, jane());
    assert_eq!(create_outcome(record, Err(error.clone())), Err(CrudError::Store(error.clone())));
    assert_eq!(fetch_one_outcome::<Athlete>(Err(error.clone())), Err(CrudError::Store(error.clone())));
    assert_eq!(delete_outcome(Err(error.clone())), Err(CrudError::Store(error)));
}

#[test]
fn stored_item_that_does_not_decode_is_a_decode_error() {
    let mut item = AttributeMap::new();
    item.insert("Id".to_string(), AttrValue::S("00000000-0000-0000-0000-000000000003".to_string()));
    assert_eq!(
        fetch_one_outcome::<Athlete>(Ok(Some(item))),
        Err(CrudError::Decode(DecodeError::Missing("FirstName".to_string())))
    );
}

#[test]
fn create_with_id_uses_that_id() {
    let (record, put) = create_request_with_id::<Athlete>(0xff, jane());
    assert_eq!(record.id, 0xff);
    assert_eq!(put.item.get("Id"), Some(&AttrValue::S("00000000-0000-0000-0000-0000000000ff".to_string())));
}

#[test]
fn composite_keys_are_looked_up_by_both_values() {
    let mut table = Table::new();
    for follow in [UserAthlete::new(1, 10), UserAthlete::new(1, 11), UserAthlete::new(2, 10)] {
        let (record, put) = create_request::<UserAthlete>(follow);
        assert_eq!(record, follow);
        assert_eq!(put.table, "user_athlete");
        table.put::<UserAthlete>(put.item);
    }
    assert_eq!(fetch::<UserAthlete>(&table, Key::Composite(1, 11)), Ok(UserAthlete::new(1, 11)));
    assert_eq!(fetch::<UserAthlete>(&table, Key::Composite(1, 10)), Ok(UserAthlete::new(1, 10)));
    assert_eq!(fetch::<UserAthlete>(&table, Key::Composite(2, 11)), Err(CrudError::NotFound));
    assert_eq!(fetch::<UserAthlete>(&table, Key::Simple(1)), Err(CrudError::KeyShape));
    assert_eq!(fetch::<Athlete>(&table, Key::Composite(1, 10)), Err(CrudError::KeyShape));
    assert_eq!(delete::<UserAthlete>(&mut table, Key::Simple(1)), Err(CrudError::KeyShape));
    assert_eq!(table.scan().len(), 3);
}

#[test]
fn key_schema_lists_partition_then_sort() {
    let schema = key_schema::<UserAthlete>();
    assert_eq!(schema.len(), 2);
    assert_eq!(schema[0].name, "user_id");
    assert_eq!(schema[0].role, KeyRole::Partition);
    assert_eq!(schema[1].name, "athlete_id");
    assert_eq!(schema[1].role, KeyRole::Sort);
    let schema = key_schema::<Athlete>();
    assert_eq!(schema.len(), 1);
    assert_eq!(schema[0].name, "Id");
}

#[test]
fn table_exists_checks_names() {
    let tables = vec!["users".to_string(), "events".to_string()];
    assert!(table_exists(&tables, "events"));
    assert!(!table_exists(&tables, "athletes"));
    assert!(!table_exists(&Vec::new(), "users"));
}
