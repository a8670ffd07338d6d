//! A store of attribute-based-encrypted records.
//!
//! Ciphertexts are appended to an ordered store that is kept as one JSON
//! text; the holder of a secret key recovers the records that the key can
//! decrypt, slot by slot.
pub mod actions;
pub mod app_config;
pub mod error;
pub mod json;
pub mod lines;
pub mod scheme;
pub mod storage;
pub mod text;

use crate::error::StoreError;
use vstd::prelude::*;

verus! {

/// A value that is kept as text between two runs. `save` and `load` do the
/// part of persistence that computes; writing the text to a file and reading
/// it back is left to the caller.
pub trait Serializable: Sized + View {
    /// The text that stands for this value, where it has one.
    spec fn saved(&self) -> Option<Seq<char>>;

    /// The value that a text stands for, where it stands for one.
    spec fn loaded(text: Seq<char>) -> Option<Self::V>;

    /// Writes the value as text. What is written loads back as the same
    /// value.
    fn save(&self) -> (r: Result<String, StoreError>)
        ensures
            r matches Ok(text) ==> self.saved() == Some(text@) && Self::loaded(text@) == Some(
                self@,
            ),
            r matches Err(e) ==> self.saved() is None && e == StoreError::SerializationError,
    ;

    /// Reads a value out of a text, and fails on a text that stands for none.
    fn load(text: &str) -> (r: Result<Self, StoreError>)
        ensures
            r matches Ok(value) ==> Self::loaded(text@) == Some(value@),
            r matches Err(e) ==> Self::loaded(text@) is None && e
                == StoreError::StorageUnavailable,
    ;
}

} // verus!
