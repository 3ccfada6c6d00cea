use safe_store::models::{Safe, SafeError, SafeMetadata};
use safe_store::storage::{InMemoryStorage, SafeStorage, SafeStorageFactory};

const FIRST: &str = "550e8400-e29b-41d4-a716-446655440000";
const FIRST_ID: u128 = 0x550e8400_e29b_41d4_a716_446655440000;
const SECOND: &str = "00000000-0000-0000-0000-000000000002";
const MALFORMED: &str = "not-a-uuid";

#[test]
fn a_new_store_is_empty() {
    let storage = InMemoryStorage::new();
    assert_eq!(storage.count(), 0);
    assert_eq!(storage.list_safes(), Ok(Vec::new()));
}

#[test]
fn the_factory_gives_an_empty_store() {
    let storage = SafeStorageFactory::create_in_memory_storage();
    assert_eq!(storage.list_safes(), Ok(Vec::new()));
    let safe = Safe::new(Some(FIRST_ID), vec![1, 2, 3]);
    assert_eq!(storage.create_safe(safe.clone()), Ok(safe.clone()));
    assert_eq!(storage.get_safe(FIRST), Ok(safe));
}

#[test]
fn the_factory_gives_a_fresh_store_each_time() {
    let first = SafeStorageFactory::create_in_memory_storage();
    let second = SafeStorageFactory::create_in_memory_storage();
    first.create_safe(Safe::new(Some(FIRST_ID), vec![1])).unwrap();
    assert_eq!(second.get_safe(FIRST), Err(SafeError::NotFound));
}

#[test]
fn stored_record_can_be_read_by_its_text_id() {
    let storage = InMemoryStorage::new();
    let safe = Safe::new(Some(FIRST_ID), vec![0xde, 0xad, 0xbe, 0xef]);
    let created = storage.create_safe(safe.clone()).unwrap();
    assert_eq!(created, safe);
    let found = storage.get_safe(FIRST).unwrap();
    assert_eq!(found.encrypted_blob, vec![0xde, 0xad, 0xbe, 0xef]);
    assert_eq!(found.metadata.size, 4);
    assert_eq!(found, safe);
    assert_eq!(storage.get_safe("550E8400E29B41D4A716446655440000"), Ok(safe));
}

#[test]
fn created_record_with_a_drawn_id_can_be_read() {
    let storage = InMemoryStorage::new();
    let created = storage.create_safe(Safe::new(None, vec![1, 2])).unwrap();
    let text = uuid::Uuid::from_u128(created.id).to_string();
    assert_eq!(storage.get_safe(&text), Ok(created));
}

#[test]
fn duplicate_id_is_invalid_data() {
    let storage = InMemoryStorage::new();
    storage.create_safe(Safe::new(Some(FIRST_ID), vec![1])).unwrap();
    let again = storage.create_safe(Safe::new(Some(FIRST_ID), vec![2]));
    assert_eq!(again, Err(SafeError::InvalidData));
    assert_eq!(storage.get_safe(FIRST).unwrap().encrypted_blob, vec![1]);
    assert_eq!(storage.count(), 1);
}

#[test]
fn empty_blob_is_refused_on_create() {
    let storage = InMemoryStorage::new();
    let refused = storage.create_safe(Safe::new(Some(FIRST_ID), Vec::new()));
    assert_eq!(refused, Err(SafeError::InvalidData));
    assert_eq!(storage.count(), 0);
}

#[test]
fn malformed_id_is_invalid_data() {
    let storage = InMemoryStorage::new();
    storage.create_safe(Safe::new(Some(FIRST_ID), vec![1])).unwrap();
    assert_eq!(storage.get_safe(MALFORMED), Err(SafeError::InvalidData));
    assert_eq!(
        storage.edit_safe(MALFORMED, Safe::new(None, vec![2])),
        Err(SafeError::InvalidData)
    );
    assert_eq!(storage.delete_safe(MALFORMED), Err(SafeError::InvalidData));
    assert_eq!(storage.get_safe(""), Err(SafeError::InvalidData));
    assert_eq!(storage.count(), 1);
}

#[test]
fn well_formed_absent_id_is_not_found() {
    let storage = InMemoryStorage::new();
    storage.create_safe(Safe::new(Some(FIRST_ID), vec![1])).unwrap();
    assert_eq!(storage.get_safe(SECOND), Err(SafeError::NotFound));
    assert_eq!(storage.edit_safe(SECOND, Safe::new(None, vec![2])), Err(SafeError::NotFound));
    assert_eq!(storage.delete_safe(SECOND), Err(SafeError::NotFound));
    assert_eq!(storage.count(), 1);
}

#[test]
fn edit_replaces_blob_and_version() {
    let storage = InMemoryStorage::new();
    let created = storage.create_safe(Safe::new(Some(FIRST_ID), vec![1, 2, 3])).unwrap();
    let mut patch = Safe::new(None, vec![4]);
    patch.metadata.version = 6;
    let edited = storage.edit_safe(FIRST, patch).unwrap();
    assert_eq!(edited.id, FIRST_ID);
    assert_eq!(edited.encrypted_blob, vec![4]);
    assert_eq!(edited.metadata, SafeMetadata { size: 1, version: 6 });
    assert_eq!(edited.created_at, created.created_at);
    assert!(edited.updated_at >= created.updated_at);
    assert_eq!(storage.get_safe(FIRST), Ok(edited));
}

#[test]
fn edit_to_an_empty_blob_leaves_the_record() {
    let storage = InMemoryStorage::new();
    let created = storage.create_safe(Safe::new(Some(FIRST_ID), vec![1, 2, 3])).unwrap();
    let refused = storage.edit_safe(FIRST, Safe::new(None, Vec::new()));
    assert_eq!(refused, Err(SafeError::InvalidData));
    assert_eq!(storage.get_safe(FIRST), Ok(created));
}

#[test]
fn delete_is_permanent() {
    let storage = InMemoryStorage::new();
    storage.create_safe(Safe::new(Some(FIRST_ID), vec![1])).unwrap();
    assert_eq!(storage.delete_safe(FIRST), Ok(()));
    assert_eq!(storage.get_safe(FIRST), Err(SafeError::NotFound));
    assert_eq!(storage.delete_safe(FIRST), Err(SafeError::NotFound));
    assert_eq!(storage.list_safes(), Ok(Vec::new()));
}

#[test]
fn list_gives_every_record() {
    let storage = InMemoryStorage::new();
    let mut expected: Vec<u128> = Vec::new();
    for id in 1..=8u128 {
        storage.create_safe(Safe::new(Some(id), vec![id as u8])).unwrap();
        expected.push(id);
    }
    let listed = storage.list_safes().unwrap();
    let mut ids: Vec<u128> = listed.iter().map(|safe| safe.id).collect();
    ids.sort();
    assert_eq!(ids, expected);
    assert_eq!(storage.count(), 8);
}

#[test]
fn clones_share_the_records() {
    let storage = InMemoryStorage::new();
    let other = storage.clone();
    let created = other.create_safe(Safe::new(Some(FIRST_ID), vec![1, 2])).unwrap();
    assert_eq!(storage.get_safe(FIRST), Ok(created));
    assert_eq!(storage.count(), 1);
    storage.clear();
    assert_eq!(other.count(), 0);
    assert_eq!(other.get_safe(FIRST), Err(SafeError::NotFound));
}

#[test]
fn the_store_stays_usable_after_failed_calls() {
    let storage = InMemoryStorage::new();
    assert!(storage.get_safe(MALFORMED).is_err());
    assert!(storage.delete_safe(SECOND).is_err());
    assert!(storage.create_safe(Safe::new(Some(1), Vec::new())).is_err());
    assert!(storage.create_safe(Safe::new(Some(FIRST_ID), vec![1])).is_ok());
    assert!(storage.get_safe(FIRST).is_ok());
}

#[test]
fn create_edit_delete_scenario() {
    let storage = InMemoryStorage::new();
    let created = storage.create_safe(Safe::new(None, vec![0x01, 0x02, 0x03])).unwrap();
    assert_eq!(created.metadata, SafeMetadata { size: 3, version: 1 });
    let id = uuid::Uuid::from_u128(created.id).to_string();

    let edited = storage.edit_safe(&id, Safe::new(None, vec![0x04])).unwrap();
    assert_eq!(edited.metadata.size, 1);
    assert_eq!(edited.id, created.id);
    assert!(edited.updated_at >= edited.created_at);
    assert_eq!(edited.created_at, created.created_at);

    assert_eq!(storage.delete_safe(&id), Ok(()));
    assert_eq!(storage.get_safe(&id), Err(SafeError::NotFound));
}

#[test]
fn parallel_creates_with_distinct_ids_are_all_listed() {
    let storage = InMemoryStorage::new();
    let runtime = tokio::runtime::Builder::new_multi_thread().worker_threads(4).build().unwrap();
    runtime.block_on(async {
        let mut callers = Vec::new();
        for caller in 0..8u128 {
            let shared = storage.clone();
            callers.push(tokio::spawn(async move {
                for step in 0..50u128 {
                    let id = caller * 1_000 + step + 1;
                    let created = shared.create_safe(Safe::new(Some(id), vec![caller as u8 + 1]));
                    assert!(created.is_ok());
                }
            }));
        }
        for caller in callers {
            caller.await.unwrap();
        }
    });
    assert_eq!(storage.count(), 400);
    let listed = storage.list_safes().unwrap();
    let mut ids: Vec<u128> = listed.iter().map(|safe| safe.id).collect();
    ids.sort();
    let mut expected: Vec<u128> = Vec::new();
    for caller in 0..8u128 {
        for step in 0..50u128 {
            expected.push(caller * 1_000 + step + 1);
        }
    }
    assert_eq!(ids, expected);
}
