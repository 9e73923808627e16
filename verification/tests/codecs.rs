use storage_data::BincodeCodec;
use storage_data::CborCodec;
use storage_data::Codec;
use storage_data::DecimalCodec;
use storage_data::JsonCodec;
use storage_data::RonCodec;
use storage_data::StorageData;
use storage_data::StorageError;
use storage_data::Stores;
use storage_data::StringCodec;
use storage_data::YamlCodec;

#[test]
fn decimal_encodes_canonically() {
    assert_eq!(DecimalCodec.encode(&0).unwrap(), "0");
    assert_eq!(DecimalCodec.encode(&7).unwrap(), "7");
    assert_eq!(DecimalCodec.encode(&1234567).unwrap(), "1234567");
    assert_eq!(
        DecimalCodec.encode(&u64::MAX).unwrap(),
        "18446744073709551615"
    );
}

#[test]
fn decimal_decodes_canonical_forms_only() {
    assert_eq!(DecimalCodec.decode("0").unwrap(), 0);
    assert_eq!(DecimalCodec.decode("90210").unwrap(), 90210);
    assert_eq!(
        DecimalCodec.decode("18446744073709551615").unwrap(),
        u64::MAX
    );
    for bad in ["", "007", "+3", "-3", "12x", " 1", "18446744073709551616"] {
        assert_eq!(
            DecimalCodec.decode(bad).err(),
            Some(StorageError::DecodeFailure),
            "expected {bad:?} to be refused"
        );
    }
}

#[test]
fn decimal_round_trips() {
    for n in [0u64, 1, 9, 10, 99, 100, 4096, u64::MAX - 1, u64::MAX] {
        let s = DecimalCodec.encode(&n).unwrap();
        assert_eq!(DecimalCodec.decode(&s).unwrap(), n);
    }
}

#[test]
fn string_codec_is_identity() {
    let s = "päivää".to_string();
    assert_eq!(StringCodec.encode(&s).unwrap(), "päivää");
    assert_eq!(StringCodec.decode("hello").unwrap(), "hello");
}

#[test]
fn json_codec_writes_json_arrays() {
    let v = vec![1u64, 2, 3];
    assert_eq!(JsonCodec.encode(&v).unwrap(), "[1,2,3]");
    assert_eq!(JsonCodec.decode("[4,5]").unwrap(), vec![4u64, 5]);
    assert_eq!(JsonCodec.decode("[]").unwrap(), Vec::<u64>::new());
    assert_eq!(
        JsonCodec.decode("not json").err(),
        Some(StorageError::DecodeFailure)
    );
    assert_eq!(
        JsonCodec.decode("[1,-2]").err(),
        Some(StorageError::DecodeFailure)
    );
}

#[test]
fn bincode_codec_round_trips_through_base64() {
    let s = BincodeCodec.encode(&7u64).unwrap();
    // The stored form is base64 text, not the decimal digits.
    assert_ne!(s, "7");
    assert!(s
        .chars()
        .all(|c| c.is_ascii_alphanumeric() || c == '-' || c == '_' || c == '='));
    assert_eq!(BincodeCodec.decode(&s).unwrap(), 7);
    assert_eq!(
        BincodeCodec.decode("!!!").err(),
        Some(StorageError::DecodeFailure)
    );
}

#[test]
fn cells_work_with_each_codec() {
    let mut stores = Stores::new();

    let mut words = StorageData::new("words".to_string(), String::new, StringCodec);
    words.set(&mut stores, "blue".to_string()).unwrap();
    let mut words2 = StorageData::new("words".to_string(), String::new, StringCodec);
    assert_eq!(words2.get(&mut stores).as_str(), "blue");

    let mut picks = StorageData::new("picks".to_string(), Vec::new, JsonCodec);
    picks.set(&mut stores, vec![10u64, 20]).unwrap();
    let mut picks2 = StorageData::new("picks".to_string(), Vec::new, JsonCodec);
    assert_eq!(picks2.get(&mut stores).clone(), vec![10u64, 20]);
    assert_eq!(
        stores.local.get_value("picks").unwrap(),
        Some("[10,20]".to_string())
    );

    let mut packed = StorageData::new("packed".to_string(), || 0u64, BincodeCodec);
    packed.set(&mut stores, 99).unwrap();
    let mut packed2 = StorageData::new("packed".to_string(), || 0u64, BincodeCodec);
    assert_eq!(*packed2.get(&mut stores), 99);
}

#[test]
fn yaml_ron_and_cbor_codecs_round_trip() {
    for n in [0u64, 7, 90210, u64::MAX] {
        let y = YamlCodec.encode(&n).unwrap();
        assert_eq!(YamlCodec.decode(&y).unwrap(), n);
        let r = RonCodec.encode(&n).unwrap();
        assert_eq!(RonCodec.decode(&r).unwrap(), n);
        let c = CborCodec.encode(&n).unwrap();
        assert_eq!(CborCodec.decode(&c).unwrap(), n);
    }
    // The textual forms really are the formats' own.
    assert_eq!(RonCodec.encode(&7u64).unwrap(), "7");
    assert_eq!(YamlCodec.encode(&7u64).unwrap(), "7\n");
    assert_ne!(CborCodec.encode(&7u64).unwrap(), "7");
    assert_eq!(
        YamlCodec.decode("[oops").err(),
        Some(StorageError::DecodeFailure)
    );
    assert_eq!(
        RonCodec.decode("oops").err(),
        Some(StorageError::DecodeFailure)
    );
    assert_eq!(
        CborCodec.decode("@@").err(),
        Some(StorageError::DecodeFailure)
    );
}

#[test]
fn builder_methods_select_formats() {
    let mut stores = Stores::new();
    let mut count = StorageData::new("c".to_string(), || 0u64, DecimalCodec).serde_bincode();
    count.set(&mut stores, 5).unwrap();
    // The stored form is base64-wrapped bincode, not the decimal digits.
    let raw = stores.local.get_value("c").unwrap().unwrap();
    assert_ne!(raw, "5");
    let mut fresh = StorageData::new("c".to_string(), || 0u64, DecimalCodec).serde_bincode();
    assert_eq!(*fresh.get(&mut stores), 5);

    let mut picks = StorageData::new("p".to_string(), Vec::new, JsonCodec).serde_json();
    picks.set(&mut stores, vec![8u64]).unwrap();
    assert_eq!(stores.local.get_value("p").unwrap(), Some("[8]".to_string()));

    let mut y = StorageData::new("y".to_string(), || 0u64, DecimalCodec).serde_yaml();
    y.set(&mut stores, 6).unwrap();
    assert_eq!(stores.local.get_value("y").unwrap(), Some("6\n".to_string()));

    let mut r = StorageData::new("r".to_string(), || 0u64, DecimalCodec).serde_ron();
    r.set(&mut stores, 6).unwrap();
    assert_eq!(stores.local.get_value("r").unwrap(), Some("6".to_string()));

    let mut c = StorageData::new("cb".to_string(), || 0u64, DecimalCodec).serde_cbor();
    c.set(&mut stores, 6).unwrap();
    let mut c2 = StorageData::new("cb".to_string(), || 0u64, DecimalCodec).serde_cbor();
    assert_eq!(*c2.get(&mut stores), 6);
}
