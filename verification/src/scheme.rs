//! The attribute-based encryption scheme that the store relies on.
//!
//! Keys and ciphertexts belong to the `rabe` crate and are carried through as
//! opaque values. The type declarations, the names without a body and the
//! functions marked `external_body` in this file are trusted: what they say
//! is taken from the source of `rabe` and is not proved here.
use rabe::error::RabeError;
use rabe::schemes::aw11::{Aw11Ciphertext, Aw11GlobalKey, Aw11PublicKey, Aw11SecretKey};
use rabe::utils::policy::pest::PolicyLanguage;
use vstd::prelude::*;

verus! {

#[verifier::external_type_specification]
#[verifier::external_body]
pub struct ExAw11GlobalKey(Aw11GlobalKey);

#[verifier::external_type_specification]
#[verifier::external_body]
pub struct ExAw11PublicKey(Aw11PublicKey);

#[verifier::external_type_specification]
#[verifier::external_body]
pub struct ExAw11SecretKey(Aw11SecretKey);

#[verifier::external_type_specification]
#[verifier::external_body]
pub struct ExAw11Ciphertext(Aw11Ciphertext);

#[verifier::external_type_specification]
#[verifier::external_body]
pub struct ExRabeError(RabeError);

#[verifier::external_type_specification]
pub struct ExPolicyLanguage(PolicyLanguage);

/// The policy text that a ciphertext carries: the first part of its `_policy`
/// field.
pub uninterp spec fn ciphertext_policy(ct: Aw11Ciphertext) -> Seq<char>;

/// The user handle that a secret key carries: its `_gid` field.
pub uninterp spec fn secret_key_gid(sk: Aw11SecretKey) -> Seq<char>;

/// How `rabe::schemes::aw11::decrypt` ends on a global key, a secret key and a
/// ciphertext. `None`: the call does not return; it panics where the
/// ciphertext lacks the entry of an attribute that the key satisfies the
/// policy with, and where the payload is shorter than its twelve-byte nonce.
/// `Some(None)`: it returns an error, as it does where the key's attributes do
/// not satisfy the policy. `Some(Some(p))`: it returns the plaintext `p`. The
/// call draws no random number and reads nothing but its arguments.
pub uninterp spec fn aw11_decrypt(
    gk: Aw11GlobalKey,
    sk: Aw11SecretKey,
    ct: Aw11Ciphertext,
) -> Option<Option<Seq<u8>>>;

/// How `rabe::schemes::aw11::encrypt` ends on its arguments. `None`: the call
/// does not return; it panics on a policy that joins more than two terms by
/// one `and`, and where the symmetric cipher refuses the plaintext for its
/// length. `Some(false)`: it returns an error, as it does on a policy that
/// does not parse. `Some(true)`: it returns a ciphertext. Which of the three
/// it is depends on the arguments alone; the ciphertext itself depends on
/// random numbers and has no name.
pub uninterp spec fn aw11_encrypt_status(
    gk: Aw11GlobalKey,
    pks: Seq<Aw11PublicKey>,
    policy: Seq<char>,
    language: PolicyLanguage,
    plaintext: Seq<u8>,
) -> Option<bool>;

/// Whether `rabe`'s `decrypt` returns on these arguments.
pub open spec fn decrypt_returns(gk: Aw11GlobalKey, sk: Aw11SecretKey, ct: Aw11Ciphertext) -> bool {
    aw11_decrypt(gk, sk, ct) is Some
}

/// What `rabe`'s `decrypt` recovers from a ciphertext, where it returns: the
/// plaintext, or `None` where it reports an error.
pub open spec fn decrypted(gk: Aw11GlobalKey, sk: Aw11SecretKey, ct: Aw11Ciphertext) -> Option<
    Seq<u8>,
>
    recommends
        decrypt_returns(gk, sk, ct),
{
    aw11_decrypt(gk, sk, ct)->0
}

/// Calls `rabe::schemes::aw11::decrypt`. The contract names the result; it
/// leaves out the arguments on which the call does not return.
#[verifier::external_body]
pub(crate) fn decrypt_ciphertext(gk: &Aw11GlobalKey, sk: &Aw11SecretKey, ct: &Aw11Ciphertext) -> (r:
    Result<Vec<u8>, RabeError>)
    requires
        decrypt_returns(*gk, *sk, *ct),
    ensures
        r matches Ok(p) ==> aw11_decrypt(*gk, *sk, *ct) == Some(Some(p@)),
        r is Err ==> aw11_decrypt(*gk, *sk, *ct) == Some(None::<Seq<u8>>),
{
    rabe::schemes::aw11::decrypt(gk, sk, ct)
}

/// Calls `rabe::schemes::aw11::encrypt`. The contract says when the call
/// yields a ciphertext, and that the ciphertext carries the policy text it was
/// made under, as the source shows; it leaves out the arguments on which the
/// call does not return.
#[verifier::external_body]
pub(crate) fn encrypt_plaintext(
    gk: &Aw11GlobalKey,
    pks: &Vec<Aw11PublicKey>,
    policy: &String,
    language: PolicyLanguage,
    plaintext: &[u8],
) -> (r: Result<Aw11Ciphertext, RabeError>)
    requires
        aw11_encrypt_status(*gk, pks@, policy@, language, plaintext@) is Some,
    ensures
        aw11_encrypt_status(*gk, pks@, policy@, language, plaintext@) == Some(r is Ok),
        r matches Ok(ct) ==> ciphertext_policy(ct) == policy@,
{
    rabe::schemes::aw11::encrypt(gk, pks, policy, language, plaintext)
}

/// The `Clone` impl that `rabe` derives for a ciphertext copies every field:
/// the copy equals the ciphertext.
pub assume_specification[ <Aw11Ciphertext as Clone>::clone ](ct: &Aw11Ciphertext) -> (r:
    Aw11Ciphertext)
    ensures
        r == *ct,
;

/// Reads the policy text out of a ciphertext.
#[verifier::external_body]
pub(crate) fn policy_of(ct: &Aw11Ciphertext) -> (r: String)
    ensures
        r@ == ciphertext_policy(*ct),
{
    ct._policy.0.clone()
}

/// Reads the user handle out of a secret key.
#[verifier::external_body]
pub(crate) fn gid_of(sk: &Aw11SecretKey) -> (r: String)
    ensures
        r@ == secret_key_gid(*sk),
{
    sk._gid.clone()
}

} // verus!
