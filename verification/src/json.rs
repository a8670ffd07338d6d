//! Reading and writing keys and ciphertexts as JSON text.
//!
//! The names without a body and the functions marked `external_body` in this
//! file are trusted: what they say is taken from the documentation and source
//! of `serde_json`, and of the `serde` impls that `rabe` derives for its
//! types, and is not proved here.
use rabe::schemes::aw11::{Aw11Ciphertext, Aw11GlobalKey, Aw11PublicKey, Aw11SecretKey};
use vstd::prelude::*;

verus! {

#[verifier::external_type_specification]
#[verifier::external_body]
pub struct ExJsonError(serde_json::Error);

/// The sequence of ciphertexts that `serde_json::from_str` reads out of a
/// text, or `None` where it reports an error.
pub uninterp spec fn ciphertexts_of_json(text: Seq<char>) -> Option<Seq<Aw11Ciphertext>>;

/// The text that `serde_json::to_string` writes for a sequence of
/// ciphertexts, or `None` where it reports an error.
pub uninterp spec fn json_of_ciphertexts(records: Seq<Aw11Ciphertext>) -> Option<Seq<char>>;

/// The global key that `serde_json::from_str` reads out of a text, or `None`
/// where it reports an error.
pub uninterp spec fn global_key_of_json(text: Seq<char>) -> Option<Aw11GlobalKey>;

/// The authority public key that `serde_json::from_str` reads out of a text,
/// or `None` where it reports an error.
pub uninterp spec fn public_key_of_json(text: Seq<char>) -> Option<Aw11PublicKey>;

/// What `serde_json::from_str` returns for a text that is to hold a secret
/// key: the key, or the error.
pub uninterp spec fn secret_key_of_json(text: Seq<char>) -> Result<
    Aw11SecretKey,
    serde_json::Error,
>;

/// The text that a `serde_json::Error` displays.
pub uninterp spec fn json_error_message(error: serde_json::Error) -> Seq<char>;

/// Calls `serde_json::from_str` for a sequence of ciphertexts. The contract
/// names the result: parsing reads nothing but the text.
#[verifier::external_body]
pub(crate) fn ciphertexts_from_json(text: &str) -> (r: Result<
    Vec<Aw11Ciphertext>,
    serde_json::Error,
>)
    ensures
        r matches Ok(records) ==> ciphertexts_of_json(text@) == Some(records@),
        r is Err ==> ciphertexts_of_json(text@) is None,
{
    serde_json::from_str(text)
}

/// Calls `serde_json::to_string` on a sequence of ciphertexts. The contract
/// names the result, and claims that `serde_json::from_str` reads the written
/// text back as the same ciphertexts in the same order. That rests on the
/// `Serialize` and `Deserialize` impls of a ciphertext and of every type
/// inside it, all of which `rabe` and `rabe-bn` derive: each field is written
/// as it is, as text, integers and arrays, and read back unchanged.
#[verifier::external_body]
pub(crate) fn ciphertexts_to_json(records: &Vec<Aw11Ciphertext>) -> (r: Result<
    String,
    serde_json::Error,
>)
    ensures
        r matches Ok(text) ==> json_of_ciphertexts(records@) == Some(text@),
        r matches Ok(text) ==> ciphertexts_of_json(text@) == Some(records@),
        r is Err ==> json_of_ciphertexts(records@) is None,
{
    serde_json::to_string(records)
}

/// Calls `serde_json::from_str` for a global key. The contract names the
/// result.
#[verifier::external_body]
pub(crate) fn global_key_from_json(text: &str) -> (r: Result<Aw11GlobalKey, serde_json::Error>)
    ensures
        r matches Ok(key) ==> global_key_of_json(text@) == Some(key),
        r is Err ==> global_key_of_json(text@) is None,
{
    serde_json::from_str(text)
}

/// Calls `serde_json::from_str` for an authority public key. The contract
/// names the result.
#[verifier::external_body]
pub(crate) fn public_key_from_json(text: &str) -> (r: Result<Aw11PublicKey, serde_json::Error>)
    ensures
        r matches Ok(key) ==> public_key_of_json(text@) == Some(key),
        r is Err ==> public_key_of_json(text@) is None,
{
    serde_json::from_str(text)
}

/// Calls `serde_json::from_str` for a secret key. The contract names the
/// result.
#[verifier::external_body]
pub(crate) fn secret_key_from_json(text: &str) -> (r: Result<Aw11SecretKey, serde_json::Error>)
    ensures
        r == secret_key_of_json(text@),
{
    serde_json::from_str(text)
}

/// Calls `to_string` on a `serde_json::Error`. The contract names the text.
#[verifier::external_body]
pub(crate) fn json_error_text(error: &serde_json::Error) -> (r: String)
    ensures
        r@ == json_error_message(*error),
{
    error.to_string()
}

} // verus!
