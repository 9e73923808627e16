use storage_data::DecimalCodec;
use storage_data::StorageData;
use storage_data::StorageError;
use storage_data::StorageKind;
use storage_data::Store;
use storage_data::Stores;
use storage_data::StringCodec;

#[test]
fn default_when_store_empty() {
    let mut stores = Stores::new();
    let mut cell = StorageData::new("count".to_string(), || 0u64, DecimalCodec);
    assert_eq!(*cell.get(&mut stores), 0);
}

#[test]
fn cached_value_survives_store_change() {
    let mut stores = Stores::new();
    stores.local.set_value("k", "5".to_string()).unwrap();
    let mut cell = StorageData::new("k".to_string(), || 0u64, DecimalCodec);
    assert_eq!(*cell.get(&mut stores), 5);
    // Drop the entry behind the cell's back: a second read must hit the
    // cache, not the store.
    stores.local.remove_value("k").unwrap();
    assert_eq!(*cell.get(&mut stores), 5);
    // A fresh cell sees the store as it now is.
    let mut fresh = StorageData::new("k".to_string(), || 0u64, DecimalCodec);
    assert_eq!(*fresh.get(&mut stores), 0);
}

#[test]
fn set_then_fresh_cell_reads_it_back() {
    let mut stores = Stores::new();
    let mut cell = StorageData::new("n".to_string(), || 0u64, DecimalCodec);
    cell.set(&mut stores, 42).unwrap();
    let mut fresh = StorageData::new("n".to_string(), || 0u64, DecimalCodec);
    assert_eq!(*fresh.get(&mut stores), 42);
}

#[test]
fn save_skips_clean_cell_over_present_key() {
    let mut stores = Stores::new();
    stores
        .local
        .set_value("k", "not a number".to_string())
        .unwrap();
    let mut cell = StorageData::new("k".to_string(), || 7u64, DecimalCodec);
    // The cell is clean and the key is present: nothing to do, nothing
    // touched — in particular the unreadable entry is neither decoded nor
    // overwritten.
    assert!(cell.save(&mut stores).is_ok());
    assert_eq!(
        stores.local.get_value("k").unwrap(),
        Some("not a number".to_string())
    );
}

#[test]
fn save_writes_missing_key_even_when_clean() {
    let mut stores = Stores::new();
    let mut cell = StorageData::new("k".to_string(), || 7u64, DecimalCodec);
    assert!(cell.save(&mut stores).is_ok());
    assert_eq!(stores.local.get_value("k").unwrap(), Some("7".to_string()));
}

#[test]
fn soft_mode_falls_back_to_default_on_garbage() {
    let mut stores = Stores::new();
    stores.local.set_value("k", "garbage".to_string()).unwrap();
    let mut cell = StorageData::new("k".to_string(), || 7u64, DecimalCodec)
        .fail_hard_on_decode_error(false);
    assert_eq!(*cell.get(&mut stores), 7);
}

#[test]
fn hard_mode_reports_garbage_through_checked_get() {
    let mut stores = Stores::new();
    stores.local.set_value("k", "garbage".to_string()).unwrap();
    let mut cell = StorageData::new("k".to_string(), || 7u64, DecimalCodec);
    assert_eq!(
        cell.checked_get(&mut stores).err(),
        Some(StorageError::DecodeFailure)
    );
    // The slot stays empty: the corrupt entry is not silently replaced.
    assert!(cell.checked_get(&mut stores).is_err());
}

#[test]
fn remove_clears_cache_and_store() {
    let mut stores = Stores::new();
    let mut cell = StorageData::new("k".to_string(), || 7u64, DecimalCodec);
    cell.set(&mut stores, 5).unwrap();
    assert!(cell.is_set(&stores));
    cell.remove(&mut stores).unwrap();
    assert!(!cell.is_set(&stores));
    assert_eq!(stores.local.get_value("k").unwrap(), None);
    // A read after the removal re-invokes the default supplier.
    assert_eq!(*cell.get(&mut stores), 7);
}

#[test]
fn finish_persists_dirty_value() {
    let mut stores = Stores::new();
    let mut cell = StorageData::new("count".to_string(), || 0u64, DecimalCodec);
    assert_eq!(*cell.get(&mut stores), 0);
    *cell.get_mut(&mut stores) += 1;
    cell.finish(&mut stores);
    assert_eq!(
        stores.local.get_value("count").unwrap(),
        Some("1".to_string())
    );
    let mut fresh = StorageData::new("count".to_string(), || 0u64, DecimalCodec);
    assert_eq!(*fresh.get(&mut stores), 1);
}

#[test]
fn finish_without_save_on_drop_discards_dirty_value() {
    let mut stores = Stores::new();
    stores.local.set_value("k", "3".to_string()).unwrap();
    let mut cell = StorageData::new("k".to_string(), || 0u64, DecimalCodec).save_on_drop(false);
    *cell.get_mut(&mut stores) += 10;
    cell.finish(&mut stores);
    assert_eq!(stores.local.get_value("k").unwrap(), Some("3".to_string()));
}

#[test]
fn unavailable_store_degrades_reads_and_fails_writes() {
    let mut stores = Stores {
        local: Store::unavailable(),
        session: Store::new(),
    };
    let mut cell = StorageData::new("k".to_string(), || 7u64, DecimalCodec);
    assert!(!cell.is_set(&stores));
    assert_eq!(*cell.get(&mut stores), 7);
    assert_eq!(
        cell.set(&mut stores, 9).err(),
        Some(StorageError::StoreUnavailable)
    );
    // The cache took the value even though persistence failed.
    assert_eq!(*cell.get(&mut stores), 9);
    assert!(cell.is_set(&stores));
    assert_eq!(
        cell.save(&mut stores).err(),
        Some(StorageError::StoreUnavailable)
    );
    assert_eq!(
        cell.remove(&mut stores).err(),
        Some(StorageError::StoreUnavailable)
    );
}

#[test]
fn quota_refuses_new_keys_but_cache_keeps_value() {
    let mut stores = Stores {
        local: Store::with_quota(1),
        session: Store::new(),
    };
    stores.local.set_value("other", "1".to_string()).unwrap();
    let mut cell = StorageData::new("k".to_string(), || 0u64, DecimalCodec);
    assert_eq!(
        cell.set(&mut stores, 5).err(),
        Some(StorageError::StoreWriteFailure)
    );
    assert_eq!(*cell.get(&mut stores), 5);
    // Saving retries the write; once room is made it goes through.
    assert!(cell.save(&mut stores).is_err());
    stores.local.remove_value("other").unwrap();
    assert!(cell.save(&mut stores).is_ok());
    assert_eq!(stores.local.get_value("k").unwrap(), Some("5".to_string()));
}

#[test]
fn take_returns_stored_value_and_consumes() {
    let mut stores = Stores::new();
    stores.local.set_value("k", "9".to_string()).unwrap();
    let cell = StorageData::new("k".to_string(), || 0u64, DecimalCodec);
    assert_eq!(cell.take(&mut stores), 9);
}

#[test]
fn take_persists_dirty_value_first() {
    let mut stores = Stores::new();
    let mut cell = StorageData::new("k".to_string(), || 0u64, DecimalCodec);
    *cell.get_mut(&mut stores) = 4;
    assert_eq!(cell.take(&mut stores), 4);
    assert_eq!(stores.local.get_value("k").unwrap(), Some("4".to_string()));
}

#[test]
fn take_of_missing_key_gives_default_and_persists_it() {
    let mut stores = Stores::new();
    let cell = StorageData::new("k".to_string(), || 7u64, DecimalCodec);
    assert_eq!(cell.take(&mut stores), 7);
    // The finalize-time save ran before the load: the default was written.
    assert_eq!(stores.local.get_value("k").unwrap(), Some("7".to_string()));
}

#[test]
fn session_cells_use_the_session_namespace() {
    let mut stores = Stores::new();
    let mut cell =
        StorageData::new("k".to_string(), || 0u64, DecimalCodec).with_session_storage();
    cell.set(&mut stores, 3).unwrap();
    assert_eq!(stores.session.get_value("k").unwrap(), Some("3".to_string()));
    assert_eq!(stores.local.get_value("k").unwrap(), None);
    let mut back = cell.with_local_storage();
    assert_eq!(*back.get(&mut stores), 3);
    let explicit =
        StorageData::new("k".to_string(), || 0u64, DecimalCodec).with_storage(StorageKind::Session);
    let mut explicit = explicit;
    assert_eq!(*explicit.get(&mut stores), 3);
}

#[test]
fn serde_with_replaces_the_codec_before_first_use() {
    let mut stores = Stores::new();
    stores.local.set_value("k", "hi".to_string()).unwrap();
    let cell = StorageData::new("k".to_string(), || String::new(), StringCodec);
    let mut cell = cell.serde_with(StringCodec);
    assert_eq!(cell.get(&mut stores).as_str(), "hi");
}
