//! The operations on the store, from text to text: what a request computes
//! between reading the durable resources and writing the store back.
//!
//! A durable resource is handed over as the text that was read from it, or
//! as `None` where it could not be read. Which failure is reported where
//! several resources are bad at once is decided here.
use crate::error::StoreError;
use crate::json::{
    ciphertexts_of_json, global_key_from_json, global_key_of_json, json_of_ciphertexts,
    public_key_from_json, public_key_of_json, secret_key_from_json, secret_key_of_json,
};
use crate::lines::{line_at, nth_line};
use crate::scheme::{
    aw11_encrypt_status, ciphertext_policy, encrypt_plaintext, gid_of, secret_key_gid,
};
use crate::storage::{decrypt_all, decrypt_all_returns, slots_view, Storage};
use crate::text::{decode_strict, utf8_error_of};
use crate::Serializable;
use rabe::schemes::aw11::{Aw11Ciphertext, Aw11GlobalKey, Aw11PublicKey, Aw11SecretKey};
use rabe::utils::policy::pest::PolicyLanguage;
use vstd::prelude::*;
use vstd::string::StringSliceAdditionalSpecFns;
use vstd::utf8::{
    decode_utf8, decode_utf8_encode_utf8, encode_utf8, encode_utf8_decode_utf8, valid_utf8,
};

verus! {

/// A new record as it is submitted: the plaintext and the policy to encrypt
/// it under.
pub struct FormPlaintextPolicy {
    pub plaintext: String,
    pub policy: String,
}

/// The line of an uploaded key file that holds the key, counted from zero.
pub const KEY_LINE: usize = 4;

/// A text that may be missing, by its characters.
pub open spec fn text_of(text: Option<&str>) -> Option<Seq<char>> {
    match text {
        Some(text) => Some(text@),
        None => None,
    }
}

/// The texts that were handed over, by their sequence.
pub open spec fn texts_view(key_texts: Option<Vec<String>>) -> Option<Seq<String>> {
    match key_texts {
        Some(texts) => Some(texts@),
        None => None,
    }
}

/// A text result, by the view of its text.
pub open spec fn text_view(r: Result<String, StoreError>) -> Result<Seq<char>, StoreError> {
    match r {
        Ok(text) => Ok(text@),
        Err(e) => Err(e),
    }
}

/// The secret key that an upload holds, or why it holds none. The three
/// failures are told apart, in this order: the bytes are not UTF-8 text; the
/// text has no line at `KEY_LINE`; that line is not a key as JSON.
pub open spec fn upload_key(data: Seq<u8>) -> Result<Aw11SecretKey, StoreError> {
    if !valid_utf8(data) {
        Err(StoreError::UploadNotUtf8(utf8_error_of(data)))
    } else {
        match line_at(data, KEY_LINE as nat) {
            None => Err(StoreError::KeyLineMissing),
            Some(line) => match secret_key_of_json(decode_utf8(line)) {
                Ok(key) => Ok(key),
                Err(cause) => Err(StoreError::KeyLineMalformed(cause)),
            },
        }
    }
}

/// The global key that the text of the global parameters holds, or `None`
/// where the text is missing or malformed.
pub open spec fn global_key_in(gk_text: Option<Seq<char>>) -> Option<Aw11GlobalKey> {
    match gk_text {
        None => None,
        Some(text) => global_key_of_json(text),
    }
}

/// The records that the text of the store holds, or `None` where the text is
/// missing or malformed. A missing text is no empty store.
pub open spec fn records_in(storage_text: Option<Seq<char>>) -> Option<Seq<Aw11Ciphertext>> {
    match storage_text {
        None => None,
        Some(text) => ciphertexts_of_json(text),
    }
}

/// The public keys that a sequence of JSON texts holds, in order, or `None`
/// where one of the texts holds no key.
pub open spec fn public_keys_of_json(texts: Seq<String>) -> Option<Seq<Aw11PublicKey>> {
    if forall|i: int| 0 <= i < texts.len() ==> public_key_of_json((#[trigger] texts[i])@) is Some {
        Some(Seq::new(texts.len(), |i: int| public_key_of_json(texts[i]@)->0))
    } else {
        None
    }
}

/// What encryption starts from: the global key and the authority keys, or
/// the failure to obtain them, the global key first. `key_texts` is `None`
/// where the authority keys could not be enumerated.
pub open spec fn encrypt_inputs(gk_text: Option<Seq<char>>, key_texts: Option<Seq<String>>) -> Result<
    (Aw11GlobalKey, Seq<Aw11PublicKey>),
    StoreError,
> {
    match global_key_in(gk_text) {
        None => Err(StoreError::GlobalParametersUnavailable),
        Some(gk) => match key_texts {
            None => Err(StoreError::AuthorityKeysUnavailable),
            Some(texts) => match public_keys_of_json(texts) {
                None => Err(StoreError::AuthorityKeysUnavailable),
                Some(pks) => Ok((gk, pks)),
            },
        },
    }
}

/// What decryption starts from: the user's key, the global key and the
/// records, or the first failure to obtain one of them, in that order.
pub open spec fn decrypt_inputs(
    upload: Seq<u8>,
    gk_text: Option<Seq<char>>,
    storage_text: Option<Seq<char>>,
) -> Result<(Aw11SecretKey, Aw11GlobalKey, Seq<Aw11Ciphertext>), StoreError> {
    match upload_key(upload) {
        Err(e) => Err(e),
        Ok(sk) => match global_key_in(gk_text) {
            None => Err(StoreError::GlobalParametersUnavailable),
            Some(gk) => match records_in(storage_text) {
                None => Err(StoreError::StorageUnavailable),
                Some(records) => Ok((sk, gk, records)),
            },
        },
    }
}

/// The store's text after `ct` is appended to the store that `storage_text`
/// holds, or the failure to read the one or to write the other.
pub open spec fn appended(storage_text: Option<Seq<char>>, ct: Aw11Ciphertext) -> Result<
    Seq<char>,
    StoreError,
> {
    match records_in(storage_text) {
        None => Err(StoreError::StorageUnavailable),
        Some(records) => match json_of_ciphertexts(records.push(ct)) {
            None => Err(StoreError::SerializationError),
            Some(text) => Ok(text),
        },
    }
}

/// Reads the global parameters out of their JSON text. `None` stands for a
/// text that could not be read.
pub fn load_global_key(gk_text: Option<&str>) -> (r: Result<Aw11GlobalKey, StoreError>)
    ensures
        match global_key_in(text_of(gk_text)) {
            Some(gk) => r == Ok::<Aw11GlobalKey, StoreError>(gk),
            None => r == Err::<Aw11GlobalKey, StoreError>(StoreError::GlobalParametersUnavailable),
        },
{
    match gk_text {
        None => Err(StoreError::GlobalParametersUnavailable),
        Some(text) => match global_key_from_json(text) {
            Ok(gk) => Ok(gk),
            Err(_) => Err(StoreError::GlobalParametersUnavailable),
        },
    }
}

/// Reads the store out of its JSON text. `None` stands for a text that could
/// not be read: that is a failure, as a malformed text is, and no empty
/// store.
pub fn load_storage(storage_text: Option<&str>) -> (r: Result<Storage<Aw11Ciphertext>, StoreError>)
    ensures
        match records_in(text_of(storage_text)) {
            Some(records) => r matches Ok(storage) && storage@ == records,
            None => r matches Err(e) && e == StoreError::StorageUnavailable,
        },
{
    match storage_text {
        None => Err(StoreError::StorageUnavailable),
        Some(text) => Storage::<Aw11Ciphertext>::load(text),
    }
}

/// Reads the user's secret key out of an uploaded key file. The upload must
/// be UTF-8 text as a whole, and hold the key on the line at `KEY_LINE`; the
/// error tells which of the two failed, or that the line is no key.
pub fn from_data_to_userkey(data: Vec<u8>) -> (r: Result<Aw11SecretKey, StoreError>)
    ensures
        r == upload_key(data@),
{
    let ghost bytes = data@;
    let text = match decode_strict(data) {
        Ok(text) => text,
        Err(cause) => {
            return Err(StoreError::UploadNotUtf8(cause));
        },
    };
    proof {
        decode_utf8_encode_utf8(bytes);
    }
    let line = match nth_line(text.as_str(), KEY_LINE) {
        Some(line) => line,
        None => {
            return Err(StoreError::KeyLineMissing);
        },
    };
    proof {
        encode_utf8_decode_utf8(line@);
    }
    match secret_key_from_json(line) {
        Ok(key) => Ok(key),
        Err(cause) => Err(StoreError::KeyLineMalformed(cause)),
    }
}

/// Reads the authority public keys out of their JSON texts, in order.
/// `key_texts` is `None` where the keys could not be enumerated: that is a
/// failure, and so is a text that holds no key. No part of the keys is ever
/// handed on in place of all of them.
pub fn get_pks(key_texts: &Option<Vec<String>>) -> (r: Result<Vec<Aw11PublicKey>, StoreError>)
    ensures
        r matches Ok(pks) ==> key_texts is Some && public_keys_of_json(key_texts->0@) == Some(
            pks@,
        ),
        r matches Err(e) ==> e == StoreError::AuthorityKeysUnavailable,
        r is Err && key_texts is Some ==> public_keys_of_json(key_texts->0@) is None,
{
    match key_texts {
        None => Err(StoreError::AuthorityKeysUnavailable),
        Some(texts) => {
            let mut pks: Vec<Aw11PublicKey> = Vec::new();
            let n: usize = texts.len();
            let mut k: usize = 0;
            while k < n
                invariant
                    key_texts is Some,
                    key_texts->0@ == texts@,
                    n == texts@.len(),
                    k <= n,
                    pks@.len() == k,
                    forall|i: int|
                        0 <= i < k ==> public_key_of_json((#[trigger] texts@[i])@) == Some(pks@[i]),
                decreases n - k,
            {
                match public_key_from_json(texts[k].as_str()) {
                    Ok(pk) => pks.push(pk),
                    Err(_) => {
                        assert(public_key_of_json(texts@[k as int]@) is None);
                        return Err(StoreError::AuthorityKeysUnavailable);
                    },
                }
                k += 1;
            }
            assert(pks@ =~= public_keys_of_json(texts@)->0);
            Ok(pks)
        },
    }
}

/// Encrypts a plaintext under a policy, written in the human policy
/// language, for the given authorities. The scheme's encryption must return
/// on these arguments: an error is a return, a panic is none.
pub fn create_record(
    gk: &Aw11GlobalKey,
    pks: &Vec<Aw11PublicKey>,
    policy: &String,
    plaintext: &[u8],
) -> (r: Result<Aw11Ciphertext, StoreError>)
    requires
        aw11_encrypt_status(*gk, pks@, policy@, PolicyLanguage::HumanPolicy, plaintext@) is Some,
    ensures
        r is Ok <==> aw11_encrypt_status(
            *gk,
            pks@,
            policy@,
            PolicyLanguage::HumanPolicy,
            plaintext@,
        ) == Some(true),
        r matches Ok(ct) ==> ciphertext_policy(ct) == policy@,
        r matches Err(e) ==> e == StoreError::EncryptionFailed,
{
    match encrypt_plaintext(gk, pks, policy, PolicyLanguage::HumanPolicy, plaintext) {
        Ok(ct) => Ok(ct),
        Err(_) => Err(StoreError::EncryptionFailed),
    }
}

/// Appends a ciphertext to the store that a text holds, and writes the new
/// store as text. The new text loads back as the old records, in their
/// order, followed by the new one.
pub fn append_record(storage_text: Option<&str>, ct: Aw11Ciphertext) -> (r: Result<
    String,
    StoreError,
>)
    ensures
        text_view(r) == appended(text_of(storage_text), ct),
        r matches Ok(text) ==> ciphertexts_of_json(text@) == Some(
            records_in(text_of(storage_text))->0.push(ct),
        ),
{
    let mut storage = match load_storage(storage_text) {
        Ok(storage) => storage,
        Err(e) => {
            return Err(e);
        },
    };
    storage.update(ct);
    storage.save()
}

/// Adds a submitted record to the store: encrypts the plaintext under the
/// policy for all authorities, appends the ciphertext to the store that
/// `storage_text` holds, and returns the new store as text, for the caller to
/// write. `key_texts` is `None` where the authority keys could not be
/// enumerated. Every failure yields an error and no text, so that a failed
/// ingestion leaves the durable store as it was. The scheme's encryption must
/// return on what was submitted.
pub fn update_storage(
    gk_text: Option<&str>,
    key_texts: &Option<Vec<String>>,
    storage_text: Option<&str>,
    form: &FormPlaintextPolicy,
) -> (r: Result<String, StoreError>)
    requires
        encrypt_inputs(text_of(gk_text), texts_view(*key_texts)) matches Ok(inputs)
            ==> aw11_encrypt_status(
            inputs.0,
            inputs.1,
            form.policy@,
            PolicyLanguage::HumanPolicy,
            encode_utf8(form.plaintext@),
        ) is Some,
    ensures
        key_texts is None ==> r is Err,
        match encrypt_inputs(text_of(gk_text), texts_view(*key_texts)) {
            Err(e) => r == Err::<String, StoreError>(e),
            Ok(inputs) => if aw11_encrypt_status(
                inputs.0,
                inputs.1,
                form.policy@,
                PolicyLanguage::HumanPolicy,
                encode_utf8(form.plaintext@),
            ) == Some(true) {
                exists|ct: Aw11Ciphertext|
                    {
                        &&& ciphertext_policy(ct) == form.policy@
                        &&& #[trigger] appended(text_of(storage_text), ct) == text_view(r)
                        &&& r matches Ok(text) ==> ciphertexts_of_json(text@) == Some(
                            records_in(text_of(storage_text))->0.push(ct),
                        )
                    }
            } else {
                r == Err::<String, StoreError>(StoreError::EncryptionFailed)
            },
        },
{
    let gk = match load_global_key(gk_text) {
        Ok(gk) => gk,
        Err(e) => {
            return Err(e);
        },
    };
    let pks = match get_pks(key_texts) {
        Ok(pks) => pks,
        Err(e) => {
            return Err(e);
        },
    };
    let ct = match create_record(&gk, &pks, &form.policy, form.plaintext.as_str().as_bytes()) {
        Ok(ct) => ct,
        Err(e) => {
            return Err(e);
        },
    };
    let r = append_record(storage_text, ct);
    assert(appended(text_of(storage_text), ct) == text_view(r));
    r
}

/// Decrypts the whole store for the holder of an uploaded key. Returns the
/// key's user handle and the decrypted store, whose slot `i` belongs to record
/// `i` of the store that `storage_text` holds. The operation fails only where
/// the key, the global parameters or the store cannot be read, and reports
/// the first of these; a record that the key cannot decrypt shows as an empty
/// slot. The scheme's decryption must return on every record.
pub fn decrypt_storage(upload: Vec<u8>, gk_text: Option<&str>, storage_text: Option<&str>) -> (r:
    Result<(String, Storage<Option<Vec<u8>>>), StoreError>)
    requires
        decrypt_inputs(upload@, text_of(gk_text), text_of(storage_text)) matches Ok(inputs)
            ==> decrypt_all_returns(inputs.1, inputs.0, inputs.2),
    ensures
        match decrypt_inputs(upload@, text_of(gk_text), text_of(storage_text)) {
            Err(e) => r matches Err(x) && x == e,
            Ok(inputs) => r matches Ok(found) && found.0@ == secret_key_gid(inputs.0)
                && found.1@.len() == inputs.2.len() && slots_view(found.1@) == decrypt_all(
                inputs.1,
                inputs.0,
                inputs.2,
            ),
        },
{
    let user_key = match from_data_to_userkey(upload) {
        Ok(key) => key,
        Err(e) => {
            return Err(e);
        },
    };
    let gk = match load_global_key(gk_text) {
        Ok(gk) => gk,
        Err(e) => {
            return Err(e);
        },
    };
    let storage = match load_storage(storage_text) {
        Ok(storage) => storage,
        Err(e) => {
            return Err(e);
        },
    };
    assert(decrypt_inputs(upload@, text_of(gk_text), text_of(storage_text)) == Ok::<
        (Aw11SecretKey, Aw11GlobalKey, Seq<Aw11Ciphertext>),
        StoreError,
    >((user_key, gk, storage@)));
    let dec_storage = storage.decrypt(&gk, &user_key);
    Ok((gid_of(&user_key), dec_storage))
}

/// Reads the store that a text holds, for display: its records in order,
/// and whether there is none.
pub fn show_encrypted_storage(storage_text: Option<&str>) -> (r: Result<
    (Vec<Aw11Ciphertext>, bool),
    StoreError,
>)
    ensures
        match records_in(text_of(storage_text)) {
            None => r matches Err(e) && e == StoreError::StorageUnavailable,
            Some(records) => r matches Ok(shown) && shown.0@ == records && shown.1 == (
            records.len() == 0),
        },
{
    match load_storage(storage_text) {
        Ok(storage) => {
            let data = storage.get_data();
            assert(data@ =~= storage@);
            let empty = storage.is_empty();
            Ok((data, empty))
        },
        Err(e) => Err(e),
    }
}

} // verus!
