use abe_store::actions::{
    append_record, create_record, decrypt_storage, from_data_to_userkey, get_pks,
    load_global_key, load_storage, show_encrypted_storage, update_storage, FormPlaintextPolicy,
};
use abe_store::error::StoreError;
use abe_store::storage::Storage;
use abe_store::Serializable;
use rabe::schemes::aw11::{
    authgen, keygen, setup, Aw11Ciphertext, Aw11GlobalKey, Aw11MasterKey, Aw11PublicKey,
    Aw11SecretKey,
};

struct World {
    gk: Aw11GlobalKey,
    pk: Aw11PublicKey,
    msk: Aw11MasterKey,
}

fn world() -> World {
    let gk = setup();
    let attributes = vec!["A".to_string(), "B".to_string(), "C".to_string()];
    let (pk, msk) = authgen(&gk, &attributes).unwrap();
    World { gk, pk, msk }
}

fn user(w: &World, name: &str, attributes: &[&str]) -> Aw11SecretKey {
    let attributes: Vec<String> = attributes.iter().map(|a| a.to_string()).collect();
    keygen(&w.gk, &w.msk, &name.to_string(), &attributes).unwrap()
}

fn record(w: &World, policy: &str, plaintext: &[u8]) -> Aw11Ciphertext {
    create_record(&w.gk, &vec![w.pk.clone()], &policy.to_string(), plaintext).unwrap()
}

fn upload_of(key: &Aw11SecretKey) -> Vec<u8> {
    let mut upload = String::new();
    upload.push_str("--boundary\r\n");
    upload.push_str("Content-Disposition: form-data; name=\"file\"; filename=\"key.json\"\r\n");
    upload.push_str("Content-Type: application/json\r\n");
    upload.push_str("\r\n");
    upload.push_str(&serde_json::to_string(key).unwrap());
    upload.push_str("\r\n--boundary--\r\n");
    upload.into_bytes()
}

#[test]
fn append_then_decrypt_with_matching_and_partial_key() {
    let w = world();
    let mut store: Storage<Aw11Ciphertext> = Storage::default();
    store.update(record(&w, "\"A\" and \"B\"", b"hello"));
    assert_eq!(store.len(), 1);

    let both = user(&w, "alice", &["A", "B"]);
    assert_eq!(store.decrypt(&w.gk, &both).get_data(), vec![Some(b"hello".to_vec())]);

    let only_a = user(&w, "bob", &["A"]);
    assert_eq!(store.decrypt(&w.gk, &only_a).get_data(), vec![None]);
}

#[test]
fn undecryptable_record_keeps_its_slot() {
    let w = world();
    let mut store: Storage<Aw11Ciphertext> = Storage::default();
    store.update(record(&w, "\"A\"", b"for a"));
    store.update(record(&w, "\"C\"", b"for c"));
    let key = user(&w, "alice", &["A"]);
    assert_eq!(store.decrypt(&w.gk, &key).get_data(), vec![Some(b"for a".to_vec()), None]);

    let mut reversed: Storage<Aw11Ciphertext> = Storage::default();
    reversed.update(record(&w, "\"C\"", b"for c"));
    reversed.update(record(&w, "\"A\"", b"for a"));
    assert_eq!(reversed.decrypt(&w.gk, &key).get_data(), vec![None, Some(b"for a".to_vec())]);
}

#[test]
fn decrypt_keeps_length_and_order() {
    let w = world();
    let mut store: Storage<Aw11Ciphertext> = Storage::default();
    store.update(record(&w, "\"A\"", b"one"));
    store.update(record(&w, "\"B\"", b"two"));
    store.update(record(&w, "\"A\" or \"C\"", b"three"));
    let key = user(&w, "alice", &["A", "B"]);
    let plain = store.decrypt(&w.gk, &key);
    assert_eq!(plain.len(), 3);
    assert_eq!(
        plain.get_data(),
        vec![Some(b"one".to_vec()), Some(b"two".to_vec()), Some(b"three".to_vec())]
    );
}

#[test]
fn empty_store_decrypts_to_empty() {
    let w = world();
    let store: Storage<Aw11Ciphertext> = Storage::default();
    let key = user(&w, "alice", &["A"]);
    let plain = store.decrypt(&w.gk, &key);
    assert_eq!(plain.len(), 0);
    assert_eq!(plain.get_data(), Vec::<Option<Vec<u8>>>::new());
}

#[test]
fn update_appends_at_the_tail() {
    let w = world();
    let first = record(&w, "\"A\"", b"1");
    let second = record(&w, "\"B\"", b"2");
    let third = record(&w, "\"C\"", b"3");
    let mut store = Storage::new(vec![first.clone(), second.clone()]);
    store.update(third.clone());
    assert_eq!(store.get_data(), vec![first.clone(), second.clone(), third.clone()]);
    store.update(first.clone());
    assert_eq!(store.get_data(), vec![first.clone(), second, third, first]);
}

#[test]
fn new_and_default_hold_what_they_are_given() {
    let empty: Storage<u8> = Storage::default();
    assert_eq!(empty.len(), 0);
    assert_eq!(empty.get_data(), Vec::<u8>::new());
    let some = Storage::new(vec![3u8, 1, 2]);
    assert_eq!(some.len(), 3);
    assert_eq!(some.get_data(), vec![3u8, 1, 2]);
    assert_eq!(some.clone().get_data(), vec![3u8, 1, 2]);
}

#[test]
fn save_then_load_gives_the_same_records() {
    let w = world();
    let mut store: Storage<Aw11Ciphertext> = Storage::default();
    store.update(record(&w, "\"A\" and \"B\"", b"hello"));
    store.update(record(&w, "\"C\"", b""));
    store.update(record(&w, "\"A\" or \"B\"", &[0u8, 255, 10, 13]));
    let text = store.save().unwrap();
    let back = Storage::<Aw11Ciphertext>::load(&text).unwrap();
    assert_eq!(back.get_data(), store.get_data());
    assert_eq!(back.save().unwrap(), text);
}

#[test]
fn empty_store_is_saved_as_an_empty_array() {
    let store: Storage<Aw11Ciphertext> = Storage::default();
    assert_eq!(store.save().unwrap(), "[]");
    let back = Storage::<Aw11Ciphertext>::load("[]").unwrap();
    assert_eq!(back.len(), 0);
}

#[test]
fn saved_text_is_what_serde_json_writes() {
    let w = world();
    let records = vec![record(&w, "\"A\"", b"x"), record(&w, "\"B\"", b"y")];
    let store = Storage::new(records.clone());
    assert_eq!(store.save().unwrap(), serde_json::to_string(&records).unwrap());
}

#[test]
fn load_refuses_malformed_text() {
    for text in ["", "[", "{\"a\": 1}", "[1]"] {
        assert!(matches!(
            Storage::<Aw11Ciphertext>::load(text),
            Err(StoreError::StorageUnavailable)
        ));
        assert!(matches!(load_storage(Some(text)), Err(StoreError::StorageUnavailable)));
    }
}

#[test]
fn load_storage_treats_a_missing_text_as_a_failure() {
    assert!(matches!(load_storage(None), Err(StoreError::StorageUnavailable)));
    assert_eq!(load_storage(Some("[]")).unwrap().len(), 0);
}

#[test]
fn encrypted_listing_names_each_policy() {
    let w = world();
    let empty: Storage<Aw11Ciphertext> = Storage::default();
    assert_eq!(empty.to_string(), "Storage is empty");
    let mut store: Storage<Aw11Ciphertext> = Storage::default();
    store.update(record(&w, "\"A\" and \"B\"", b"hello"));
    store.update(record(&w, "\"C\"", b"bye"));
    assert_eq!(
        store.to_string(),
        "Encrypted storage:\nEntry #0\t Encryption policy: \"A\" and \"B\"\nEntry #1\t Encryption policy: \"C\""
    );
}

#[test]
fn decrypted_listing_shows_plaintext_or_nan() {
    let empty: Storage<Option<Vec<u8>>> = Storage::default();
    assert_eq!(empty.to_string(), "Storage is empty");
    let store = Storage::new(vec![Some(b"hello".to_vec()), None, Some(vec![0xff, b'a'])]);
    assert_eq!(
        store.to_string(),
        "Decrypted storage:\nEntry #0\t Plaintext: hello\nEntry #1\t Plaintext: NaN\nEntry #2\t Plaintext: \u{fffd}a"
    );
}

#[test]
fn decrypted_listing_counts_past_nine() {
    let store: Storage<Option<Vec<u8>>> = Storage::new(vec![None; 11]);
    let text = store.to_string();
    assert!(text.ends_with("\nEntry #9\t Plaintext: NaN\nEntry #10\t Plaintext: NaN"));
}

#[test]
fn create_record_keeps_the_policy_text() {
    let w = world();
    let ct = record(&w, "\"A\" or \"B\"", b"hello");
    assert_eq!(ct._policy.0, "\"A\" or \"B\"");
}

#[test]
fn create_record_reports_a_malformed_policy() {
    let w = world();
    let r = create_record(&w.gk, &vec![w.pk.clone()], &"A and".to_string(), b"hello");
    assert!(matches!(r, Err(StoreError::EncryptionFailed)));
}

#[test]
fn get_pks_reads_every_key_in_order() {
    let w = world();
    let (other, _) = authgen(&w.gk, &vec!["D".to_string()]).unwrap();
    let texts =
        vec![serde_json::to_string(&w.pk).unwrap(), serde_json::to_string(&other).unwrap()];
    assert_eq!(get_pks(&Some(texts)).unwrap(), vec![w.pk.clone(), other]);
    assert_eq!(get_pks(&Some(Vec::new())).unwrap(), Vec::new());
}

#[test]
fn get_pks_fails_without_enumeration_or_on_a_bad_key() {
    let w = world();
    assert!(matches!(get_pks(&None), Err(StoreError::AuthorityKeysUnavailable)));
    let texts = vec![serde_json::to_string(&w.pk).unwrap(), "not a key".to_string()];
    assert!(matches!(get_pks(&Some(texts)), Err(StoreError::AuthorityKeysUnavailable)));
}

#[test]
fn load_global_key_reads_json() {
    let w = world();
    let text = serde_json::to_string(&w.gk).unwrap();
    assert_eq!(load_global_key(Some(&text)).unwrap(), w.gk.clone());
    assert!(matches!(load_global_key(Some("{}")), Err(StoreError::GlobalParametersUnavailable)));
    assert!(matches!(load_global_key(None), Err(StoreError::GlobalParametersUnavailable)));
}

#[test]
fn userkey_is_read_from_the_fifth_line() {
    let w = world();
    let key = user(&w, "alice", &["A", "B"]);
    assert_eq!(from_data_to_userkey(upload_of(&key)).unwrap(), key.clone());

    let mut unix = String::from("a\nb\nc\nd\n");
    unix.push_str(&serde_json::to_string(&key).unwrap());
    assert_eq!(from_data_to_userkey(unix.into_bytes()).unwrap(), key);
}

#[test]
fn userkey_upload_of_four_lines_is_an_invalid_line() {
    for upload in ["a\nb\nc\nd", "a\nb\nc\nd\n", "", "a"] {
        let r = from_data_to_userkey(upload.as_bytes().to_vec());
        assert!(matches!(r, Err(StoreError::KeyLineMissing)));
        assert_eq!(r.unwrap_err().message(), "Invalid line");
    }
}

#[test]
fn userkey_upload_that_is_not_utf8_says_what_the_decoder_says() {
    let w = world();
    let key = user(&w, "alice", &["A"]);
    let mut broken =
        format!("a\nb\nc\nd\n{}\n", serde_json::to_string(&key).unwrap()).into_bytes();
    broken.push(0xff);
    let expected = String::from_utf8(broken.clone()).unwrap_err().to_string();
    let r = from_data_to_userkey(broken);
    assert!(matches!(r, Err(StoreError::UploadNotUtf8(_))));
    assert_eq!(r.unwrap_err().message(), expected);

    let r = from_data_to_userkey(vec![0xc3]);
    assert!(matches!(r, Err(StoreError::UploadNotUtf8(_))));
    assert_eq!(r.unwrap_err().message(), "incomplete utf-8 byte sequence from index 0");
}

#[test]
fn userkey_line_that_is_no_key_says_what_the_parser_says() {
    let w = world();
    let key = user(&w, "alice", &["A"]);
    let json = serde_json::to_string(&key).unwrap();

    let r = from_data_to_userkey(b"a\nb\nc\nd\nnot json\n".to_vec());
    assert!(matches!(r, Err(StoreError::KeyLineMalformed(_))));
    let expected = serde_json::from_str::<Aw11SecretKey>("not json").unwrap_err().to_string();
    assert_eq!(r.unwrap_err().message(), expected);

    let r = from_data_to_userkey(format!("a\nb\nc\n{}\n\n", json).into_bytes());
    assert!(matches!(r, Err(StoreError::KeyLineMalformed(_))));
    let expected = serde_json::from_str::<Aw11SecretKey>("").unwrap_err().to_string();
    assert_eq!(r.unwrap_err().message(), expected);
}

#[test]
fn userkey_failures_come_in_order() {
    let r = from_data_to_userkey(vec![b'a', b'\n', 0xff]);
    assert!(matches!(r, Err(StoreError::UploadNotUtf8(_))));
    let r = from_data_to_userkey(b"a\nb\nc\nd\n{".to_vec());
    assert!(matches!(r, Err(StoreError::KeyLineMalformed(_))));
}

#[test]
fn append_record_extends_the_stored_text() {
    let w = world();
    let first = record(&w, "\"A\"", b"1");
    let second = record(&w, "\"B\"", b"2");
    let text = append_record(Some("[]"), first.clone()).unwrap();
    assert_eq!(Storage::<Aw11Ciphertext>::load(&text).unwrap().get_data(), vec![first.clone()]);
    let text = append_record(Some(&text), second.clone()).unwrap();
    assert_eq!(Storage::<Aw11Ciphertext>::load(&text).unwrap().get_data(), vec![first, second]);
}

#[test]
fn append_record_fails_on_a_malformed_or_missing_store() {
    let w = world();
    let ct = record(&w, "\"A\"", b"1");
    assert!(matches!(append_record(Some("oops"), ct.clone()), Err(StoreError::StorageUnavailable)));
    assert!(matches!(append_record(None, ct), Err(StoreError::StorageUnavailable)));
}

#[test]
fn update_storage_ingests_into_an_empty_store() {
    let w = world();
    let gk_text = serde_json::to_string(&w.gk).unwrap();
    let keys = Some(vec![serde_json::to_string(&w.pk).unwrap()]);
    let form = FormPlaintextPolicy {
        plaintext: "hello".to_string(),
        policy: "\"A\" and \"B\"".to_string(),
    };
    let text = update_storage(Some(&gk_text), &keys, Some("[]"), &form).unwrap();
    let store = Storage::<Aw11Ciphertext>::load(&text).unwrap();
    assert_eq!(store.len(), 1);
    assert_eq!(store.get_data()[0]._policy.0, "\"A\" and \"B\"");
    let key = user(&w, "alice", &["A", "B"]);
    assert_eq!(store.decrypt(&w.gk, &key).get_data(), vec![Some(b"hello".to_vec())]);
}

#[test]
fn update_storage_keeps_earlier_records_in_front() {
    let w = world();
    let gk_text = serde_json::to_string(&w.gk).unwrap();
    let keys = Some(vec![serde_json::to_string(&w.pk).unwrap()]);
    let earlier = vec![record(&w, "\"A\"", b"1"), record(&w, "\"B\"", b"2")];
    let before = Storage::new(earlier.clone()).save().unwrap();
    let form = FormPlaintextPolicy { plaintext: "3".to_string(), policy: "\"C\"".to_string() };
    let after = update_storage(Some(&gk_text), &keys, Some(&before), &form).unwrap();
    let records = Storage::<Aw11Ciphertext>::load(&after).unwrap().get_data();
    assert_eq!(records.len(), 3);
    assert_eq!(records[..2], earlier[..]);
    assert_eq!(records[2]._policy.0, "\"C\"");
}

#[test]
fn update_storage_fails_when_keys_cannot_be_enumerated() {
    let w = world();
    let gk_text = serde_json::to_string(&w.gk).unwrap();
    let form = FormPlaintextPolicy { plaintext: "hello".to_string(), policy: "\"A\"".to_string() };
    let before = Storage::new(vec![record(&w, "\"A\"", b"1")]).save().unwrap();
    let r = update_storage(Some(&gk_text), &None, Some(&before), &form);
    assert!(matches!(r, Err(StoreError::AuthorityKeysUnavailable)));
    let still = Storage::<Aw11Ciphertext>::load(&before).unwrap();
    assert_eq!(still.len(), 1);
}

#[test]
fn update_storage_reports_each_failure() {
    let w = world();
    let gk_text = serde_json::to_string(&w.gk).unwrap();
    let keys = Some(vec![serde_json::to_string(&w.pk).unwrap()]);
    let form = FormPlaintextPolicy { plaintext: "hello".to_string(), policy: "\"A\"".to_string() };
    assert!(matches!(
        update_storage(Some("nothing"), &keys, Some("[]"), &form),
        Err(StoreError::GlobalParametersUnavailable)
    ));
    assert!(matches!(
        update_storage(None, &keys, Some("[]"), &form),
        Err(StoreError::GlobalParametersUnavailable)
    ));
    assert!(matches!(
        update_storage(Some(&gk_text), &Some(vec!["{".to_string()]), Some("[]"), &form),
        Err(StoreError::AuthorityKeysUnavailable)
    ));
    assert!(matches!(
        update_storage(Some(&gk_text), &keys, Some("not a store"), &form),
        Err(StoreError::StorageUnavailable)
    ));
    assert!(matches!(
        update_storage(Some(&gk_text), &keys, None, &form),
        Err(StoreError::StorageUnavailable)
    ));
    let bad = FormPlaintextPolicy { plaintext: "hello".to_string(), policy: "\"A\" or".to_string() };
    assert!(matches!(
        update_storage(Some(&gk_text), &keys, Some("[]"), &bad),
        Err(StoreError::EncryptionFailed)
    ));
}

#[test]
fn update_storage_reports_the_first_failure() {
    let w = world();
    let gk_text = serde_json::to_string(&w.gk).unwrap();
    let keys = Some(vec![serde_json::to_string(&w.pk).unwrap()]);
    let bad = FormPlaintextPolicy { plaintext: "hello".to_string(), policy: "\"A\" or".to_string() };
    assert!(matches!(
        update_storage(None, &None, None, &bad),
        Err(StoreError::GlobalParametersUnavailable)
    ));
    assert!(matches!(
        update_storage(Some(&gk_text), &None, None, &bad),
        Err(StoreError::AuthorityKeysUnavailable)
    ));
    assert!(matches!(
        update_storage(Some(&gk_text), &keys, None, &bad),
        Err(StoreError::EncryptionFailed)
    ));
}

#[test]
fn decrypt_storage_returns_handle_and_slots() {
    let w = world();
    let gk_text = serde_json::to_string(&w.gk).unwrap();
    let store = Storage::new(vec![record(&w, "\"A\"", b"yes"), record(&w, "\"C\"", b"no")]);
    let text = store.save().unwrap();
    let key = user(&w, "alice", &["A", "B"]);
    let (gid, plain) = decrypt_storage(upload_of(&key), Some(&gk_text), Some(&text)).unwrap();
    assert_eq!(gid, "alice");
    assert_eq!(plain.get_data(), vec![Some(b"yes".to_vec()), None]);
}

#[test]
fn decrypt_storage_reports_each_failure() {
    let w = world();
    let gk_text = serde_json::to_string(&w.gk).unwrap();
    let key = user(&w, "alice", &["A"]);
    assert!(matches!(
        decrypt_storage(b"no key".to_vec(), Some(&gk_text), Some("[]")),
        Err(StoreError::KeyLineMissing)
    ));
    assert!(matches!(
        decrypt_storage(upload_of(&key), Some("no parameters"), Some("[]")),
        Err(StoreError::GlobalParametersUnavailable)
    ));
    assert!(matches!(
        decrypt_storage(upload_of(&key), None, Some("[]")),
        Err(StoreError::GlobalParametersUnavailable)
    ));
    assert!(matches!(
        decrypt_storage(upload_of(&key), Some(&gk_text), Some("no store")),
        Err(StoreError::StorageUnavailable)
    ));
    assert!(matches!(
        decrypt_storage(upload_of(&key), Some(&gk_text), None),
        Err(StoreError::StorageUnavailable)
    ));
}

#[test]
fn decrypt_storage_reports_the_upload_before_the_files() {
    let w = world();
    let key = user(&w, "alice", &["A"]);
    let r = decrypt_storage(b"a\nb\nc\nd".to_vec(), None, None);
    assert!(matches!(r, Err(StoreError::KeyLineMissing)));
    assert_eq!(r.err().unwrap().message(), "Invalid line");
    assert!(matches!(decrypt_storage(vec![0xff], None, None), Err(StoreError::UploadNotUtf8(_))));
    assert!(matches!(
        decrypt_storage(upload_of(&key), None, None),
        Err(StoreError::GlobalParametersUnavailable)
    ));
}

#[test]
fn show_encrypted_storage_hands_out_the_records() {
    let w = world();
    let records = vec![record(&w, "\"A\"", b"1"), record(&w, "\"B\" or \"C\"", b"2")];
    let text = Storage::new(records.clone()).save().unwrap();
    assert_eq!(show_encrypted_storage(Some(&text)).unwrap(), (records, false));
    assert_eq!(show_encrypted_storage(Some("[]")).unwrap(), (Vec::new(), true));
    assert!(matches!(show_encrypted_storage(Some("?")), Err(StoreError::StorageUnavailable)));
    assert!(matches!(show_encrypted_storage(None), Err(StoreError::StorageUnavailable)));
}

#[test]
fn is_empty_tells_an_empty_store() {
    let empty: Storage<u8> = Storage::default();
    assert!(empty.is_empty());
    assert!(!Storage::new(vec![1u8]).is_empty());
}
