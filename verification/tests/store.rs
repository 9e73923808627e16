use storage_data::get_data_with;
use storage_data::set_data;
use storage_data::DecimalCodec;
use storage_data::StorageError;
use storage_data::StorageKind;
use storage_data::Store;
use storage_data::Stores;

#[test]
fn store_set_get_remove() {
    let mut st = Store::new();
    assert_eq!(st.get_value("a").unwrap(), None);
    assert!(!st.contains_key("a"));
    st.set_value("a", "1".to_string()).unwrap();
    assert!(st.contains_key("a"));
    assert_eq!(st.get_value("a").unwrap(), Some("1".to_string()));
    st.set_value("a", "2".to_string()).unwrap();
    assert_eq!(st.get_value("a").unwrap(), Some("2".to_string()));
    st.remove_value("a").unwrap();
    assert_eq!(st.get_value("a").unwrap(), None);
    // Removing a missing key is fine.
    st.remove_value("a").unwrap();
}

#[test]
fn store_quota_counts_keys_not_writes() {
    let mut st = Store::with_quota(2);
    st.set_value("a", "1".to_string()).unwrap();
    st.set_value("b", "2".to_string()).unwrap();
    assert_eq!(
        st.set_value("c", "3".to_string()).err(),
        Some(StorageError::StoreWriteFailure)
    );
    // Overwriting a present key needs no room.
    st.set_value("a", "9".to_string()).unwrap();
    assert_eq!(st.get_value("a").unwrap(), Some("9".to_string()));
    st.remove_value("b").unwrap();
    st.set_value("c", "3".to_string()).unwrap();
}

#[test]
fn unavailable_store_refuses_everything() {
    let mut st = Store::unavailable();
    assert_eq!(
        st.get_value("a").err(),
        Some(StorageError::StoreUnavailable)
    );
    assert_eq!(
        st.set_value("a", "1".to_string()).err(),
        Some(StorageError::StoreUnavailable)
    );
    assert_eq!(
        st.remove_value("a").err(),
        Some(StorageError::StoreUnavailable)
    );
    assert!(!st.contains_key("a"));
}

#[test]
fn kinds_address_their_own_namespace() {
    let mut stores = Stores::new();
    StorageKind::Local
        .set_item(&mut stores, "k", "1".to_string())
        .unwrap();
    StorageKind::Session
        .set_item(&mut stores, "k", "2".to_string())
        .unwrap();
    assert_eq!(
        StorageKind::Local.get_item(&mut stores, "k").unwrap(),
        Some("1".to_string())
    );
    assert_eq!(
        StorageKind::Session.get_item(&mut stores, "k").unwrap(),
        Some("2".to_string())
    );
    StorageKind::Local.remove_item(&mut stores, "k").unwrap();
    assert_eq!(StorageKind::Local.get_item(&mut stores, "k").unwrap(), None);
    assert_eq!(
        StorageKind::Session.get_item(&mut stores, "k").unwrap(),
        Some("2".to_string())
    );
}

#[test]
fn get_data_with_reads_decodes_and_defaults() {
    let mut stores = Stores::new();
    let seven = || 7u64;
    assert_eq!(
        get_data_with(&StorageKind::Local, &mut stores, "k", &seven, &DecimalCodec).unwrap(),
        7
    );
    set_data(&StorageKind::Local, &mut stores, "k", &31, &DecimalCodec).unwrap();
    assert_eq!(
        get_data_with(&StorageKind::Local, &mut stores, "k", &seven, &DecimalCodec).unwrap(),
        31
    );
    stores.local.set_value("k", "bad".to_string()).unwrap();
    assert_eq!(
        get_data_with(&StorageKind::Local, &mut stores, "k", &seven, &DecimalCodec).err(),
        Some(StorageError::DecodeFailure)
    );
}

#[test]
fn error_descriptions_are_distinct() {
    let all = [
        StorageError::StoreUnavailable,
        StorageError::EncodeFailure,
        StorageError::DecodeFailure,
        StorageError::StoreWriteFailure,
        StorageError::StoreRemoveFailure,
    ];
    for (i, a) in all.iter().enumerate() {
        assert!(!a.describe().is_empty());
        for (j, b) in all.iter().enumerate() {
            assert_eq!(i == j, a.describe() == b.describe());
            assert_eq!(i == j, a == b);
        }
    }
}
