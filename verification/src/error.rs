//! The failures that an operation on the store reports to its caller.
use crate::json::{json_error_message, json_error_text};
use crate::text::{utf8_error_message, utf8_error_text};
use vstd::prelude::*;
use vstd::string::StringExecFns;

verus! {

/// Why an operation as a whole failed. A record that cannot be decrypted is
/// no such failure: it shows as an empty slot of the decrypted store.
#[derive(Debug)]
pub enum StoreError {
    /// The durable store is missing, unreadable or malformed.
    StorageUnavailable,
    /// The authority public keys could not be enumerated or read.
    AuthorityKeysUnavailable,
    /// The global parameters are missing or malformed.
    GlobalParametersUnavailable,
    /// The uploaded key file is not UTF-8 text; the decoder's error says
    /// where.
    UploadNotUtf8(std::string::FromUtf8Error),
    /// The uploaded key file has no line where the key is expected.
    KeyLineMissing,
    /// The key line of the uploaded key file holds no secret key; the
    /// parser's error says why.
    KeyLineMalformed(serde_json::Error),
    /// The scheme refused to encrypt, as it does for a malformed policy.
    EncryptionFailed,
    /// The store could not be written as text.
    SerializationError,
}

/// What a failure says to the caller. A failure that rests on a decoder's or
/// a parser's error says what that error displays.
pub open spec fn message_text(error: StoreError) -> Seq<char> {
    match error {
        StoreError::StorageUnavailable => "the record store is unavailable"@,
        StoreError::AuthorityKeysUnavailable => "the authority keys are unavailable"@,
        StoreError::GlobalParametersUnavailable => "the global parameters are unavailable"@,
        StoreError::UploadNotUtf8(cause) => utf8_error_message(cause),
        StoreError::KeyLineMissing => "Invalid line"@,
        StoreError::KeyLineMalformed(cause) => json_error_message(cause),
        StoreError::EncryptionFailed => "the record could not be encrypted"@,
        StoreError::SerializationError => "the record store could not be serialized"@,
    }
}

impl StoreError {
    /// The failure as text for the caller.
    pub fn message(&self) -> (r: String)
        ensures
            r@ == message_text(*self),
    {
        match self {
            StoreError::StorageUnavailable => String::from_str("the record store is unavailable"),
            StoreError::AuthorityKeysUnavailable => String::from_str(
                "the authority keys are unavailable",
            ),
            StoreError::GlobalParametersUnavailable => String::from_str(
                "the global parameters are unavailable",
            ),
            StoreError::UploadNotUtf8(cause) => utf8_error_text(cause),
            StoreError::KeyLineMissing => String::from_str("Invalid line"),
            StoreError::KeyLineMalformed(cause) => json_error_text(cause),
            StoreError::EncryptionFailed => String::from_str("the record could not be encrypted"),
            StoreError::SerializationError => String::from_str(
                "the record store could not be serialized",
            ),
        }
    }
}

} // verus!
