//! The record store: an ordered, append-only sequence of records, and the
//! batch decryption of a store of ciphertexts.
use crate::error::StoreError;
use crate::json::{
    ciphertexts_from_json, ciphertexts_of_json, ciphertexts_to_json, json_of_ciphertexts,
};
use crate::Serializable;
use crate::scheme::{ciphertext_policy, decrypt_ciphertext, decrypt_returns, decrypted, policy_of};
use crate::text::{decimal, decimal_digits, decode_lossy, utf8_lossy};
use vstd::utf8::{decode_utf8, valid_utf8};
use rabe::schemes::aw11::{Aw11Ciphertext, Aw11GlobalKey, Aw11SecretKey};
use vstd::prelude::*;
use vstd::string::StringExecFns;

verus! {

/// An ordered sequence of records. Insertion order is the only order, and a
/// record may occur more than once.
#[derive(Clone)]
pub struct Storage<T> {
    data: Vec<T>,
}

impl<T> View for Storage<T> {
    type V = Seq<T>;

    closed spec fn view(&self) -> Seq<T> {
        self.data@
    }
}

/// What one slot of a decrypted store stands for: the recovered bytes, or
/// `None` where the record could not be decrypted.
pub open spec fn slot_view(slot: Option<Vec<u8>>) -> Option<Seq<u8>> {
    match slot {
        Some(bytes) => Some(bytes@),
        None => None,
    }
}

/// The slots of a decrypted store, each by what it stands for.
pub open spec fn slots_view(slots: Seq<Option<Vec<u8>>>) -> Seq<Option<Seq<u8>>> {
    Seq::new(slots.len(), |i: int| slot_view(slots[i]))
}

/// Whether the scheme's decryption returns on every one of the records.
pub open spec fn decrypt_all_returns(
    gk: Aw11GlobalKey,
    sk: Aw11SecretKey,
    records: Seq<Aw11Ciphertext>,
) -> bool {
    forall|i: int| 0 <= i < records.len() ==> decrypt_returns(gk, sk, #[trigger] records[i])
}

/// What one secret key makes of a sequence of ciphertexts: slot `i` is what
/// the scheme recovers from record `i`, whatever it makes of the others.
pub open spec fn decrypt_all(
    gk: Aw11GlobalKey,
    sk: Aw11SecretKey,
    records: Seq<Aw11Ciphertext>,
) -> Seq<Option<Seq<u8>>> {
    Seq::new(records.len(), |i: int| decrypted(gk, sk, records[i]))
}

/// Decrypting keeps the records' alignment: there is one slot for each
/// record, and slot `i` belongs to record `i`.
pub proof fn lemma_decrypt_all_aligned(
    gk: Aw11GlobalKey,
    sk: Aw11SecretKey,
    records: Seq<Aw11Ciphertext>,
)
    ensures
        decrypt_all(gk, sk, records).len() == records.len(),
        forall|i: int|
            0 <= i < records.len() ==> #[trigger] decrypt_all(gk, sk, records)[i] == decrypted(
                gk,
                sk,
                records[i],
            ),
{
}

/// The empty store decrypts to the empty store.
pub proof fn lemma_decrypt_all_empty(gk: Aw11GlobalKey, sk: Aw11SecretKey)
    ensures
        decrypt_all(gk, sk, Seq::<Aw11Ciphertext>::empty()) == Seq::<Option<Seq<u8>>>::empty(),
{
    assert(decrypt_all(gk, sk, Seq::<Aw11Ciphertext>::empty()) =~= Seq::<
        Option<Seq<u8>>,
    >::empty());
}

/// A record is decrypted on its own: a record that is appended adds its slot
/// at the tail and leaves every other slot as it was, whether or not the key
/// can decrypt it.
pub proof fn lemma_decrypt_all_push(
    gk: Aw11GlobalKey,
    sk: Aw11SecretKey,
    records: Seq<Aw11Ciphertext>,
    ct: Aw11Ciphertext,
)
    ensures
        decrypt_all(gk, sk, records.push(ct)) == decrypt_all(gk, sk, records).push(
            decrypted(gk, sk, ct),
        ),
{
    assert(decrypt_all(gk, sk, records.push(ct)) =~= decrypt_all(gk, sk, records).push(
        decrypted(gk, sk, ct),
    ));
}

/// A record that the key cannot decrypt does not hide one that it can: of
/// two records of which the scheme recovers `plaintext` from the one and
/// nothing from the other, the store decrypts to the plaintext and an empty
/// slot, in the records' order.
pub proof fn lemma_decrypt_all_partial(
    gk: Aw11GlobalKey,
    sk: Aw11SecretKey,
    readable: Aw11Ciphertext,
    unreadable: Aw11Ciphertext,
    plaintext: Seq<u8>,
)
    requires
        decrypted(gk, sk, readable) == Some(plaintext),
        decrypted(gk, sk, unreadable) is None,
    ensures
        decrypt_all(gk, sk, seq![readable, unreadable]) == seq![Some(plaintext), None],
        decrypt_all(gk, sk, seq![unreadable, readable]) == seq![None, Some(plaintext)],
{
    assert(decrypt_all(gk, sk, seq![readable, unreadable]) =~= seq![Some(plaintext), None]);
    assert(decrypt_all(gk, sk, seq![unreadable, readable]) =~= seq![None, Some(plaintext)]);
}

/// A plaintext as it is listed: bytes that are well-formed UTF-8 read as
/// their text, and others as the lossy decoder reads them.
pub open spec fn plaintext_text(bytes: Seq<u8>) -> Seq<char> {
    if valid_utf8(bytes) {
        decode_utf8(bytes)
    } else {
        utf8_lossy(bytes)
    }
}

/// The line that lists slot `n` of a decrypted store: the slot's number, then
/// its plaintext read as text, or `NaN` where there is none.
pub open spec fn decrypted_entry(n: nat, slot: Option<Vec<u8>>) -> Seq<char> {
    "\nEntry #"@ + decimal_digits(n) + "\t Plaintext: "@ + match slot {
        Some(bytes) => plaintext_text(bytes@),
        None => "NaN"@,
    }
}

/// The lines of the first `k` slots of a decrypted store, in order.
pub open spec fn decrypted_entries(slots: Seq<Option<Vec<u8>>>, k: nat) -> Seq<char>
    recommends
        k <= slots.len(),
    decreases k,
{
    if k == 0 {
        Seq::<char>::empty()
    } else {
        decrypted_entries(slots, (k - 1) as nat) + decrypted_entry(
            (k - 1) as nat,
            slots[k - 1],
        )
    }
}

/// The listing of a decrypted store.
pub open spec fn decrypted_listing(slots: Seq<Option<Vec<u8>>>) -> Seq<char> {
    if slots.len() == 0 {
        "Storage is empty"@
    } else {
        "Decrypted storage:"@ + decrypted_entries(slots, slots.len())
    }
}

/// The line that lists record `n` of a store of ciphertexts: the record's
/// number, then the policy it was encrypted under.
pub open spec fn encrypted_entry(n: nat, ct: Aw11Ciphertext) -> Seq<char> {
    "\nEntry #"@ + decimal_digits(n) + "\t Encryption policy: "@ + ciphertext_policy(ct)
}

/// The lines of the first `k` records of a store of ciphertexts, in order.
pub open spec fn encrypted_entries(records: Seq<Aw11Ciphertext>, k: nat) -> Seq<char>
    recommends
        k <= records.len(),
    decreases k,
{
    if k == 0 {
        Seq::<char>::empty()
    } else {
        encrypted_entries(records, (k - 1) as nat) + encrypted_entry(
            (k - 1) as nat,
            records[k - 1],
        )
    }
}

/// The listing of a store of ciphertexts.
pub open spec fn encrypted_listing(records: Seq<Aw11Ciphertext>) -> Seq<char> {
    if records.len() == 0 {
        "Storage is empty"@
    } else {
        "Encrypted storage:"@ + encrypted_entries(records, records.len())
    }
}

impl<T: Clone> Storage<T> {
    /// The empty store.
    pub fn default() -> (r: Storage<T>)
        ensures
            r@ == Seq::<T>::empty(),
    {
        Storage { data: Vec::new() }
    }

    /// The store that holds exactly `data`, in the same order.
    pub fn new(data: Vec<T>) -> (r: Storage<T>)
        ensures
            r@ == data@,
    {
        Storage { data }
    }

    /// A copy of the records, slot by slot and in order.
    pub fn get_data(&self) -> (r: Vec<T>)
        ensures
            r@.len() == self@.len(),
            forall|i: int| 0 <= i < self@.len() ==> cloned::<T>(#[trigger] self@[i], r@[i]),
    {
        self.data.clone()
    }

    /// The number of records.
    pub fn len(&self) -> (r: usize)
        ensures
            r == self@.len(),
    {
        self.data.len()
    }

    /// Whether the store holds no record.
    pub fn is_empty(&self) -> (r: bool)
        ensures
            r == (self@.len() == 0),
    {
        self.data.len() == 0
    }
}

impl Storage<Option<Vec<u8>>> {
    /// Lists the store as text: one line per slot, or a note that the store
    /// is empty.
    pub fn to_string(&self) -> (res: String)
        ensures
            res@ == decrypted_listing(self@),
    {
        let mut res = String::new();
        if self.data.len() == 0 {
            res.append("Storage is empty");
            assert(res@ =~= "Storage is empty"@);
        } else {
            res.append("Decrypted storage:");
            let n: usize = self.data.len();
            let mut k: usize = 0;
            assert(res@ =~= "Decrypted storage:"@ + decrypted_entries(self.data@, 0));
            while k < n
                invariant
                    n == self.data@.len(),
                    k <= n,
                    res@ == "Decrypted storage:"@ + decrypted_entries(self.data@, k as nat),
                decreases n - k,
            {
                let mut entry = String::from_str("\nEntry #");
                let number = decimal(k);
                entry.append(number.as_str());
                entry.append("\t Plaintext: ");
                match &self.data[k] {
                    Some(plaintext) => {
                        let plaintext = decode_lossy(plaintext);
                        entry.append(plaintext.as_str())
                    },
                    None => entry.append("NaN"),
                }
                assert(entry@ =~= decrypted_entry(k as nat, self.data@[k as int]));
                res.append(entry.as_str());
                k += 1;
                assert(res@ =~= "Decrypted storage:"@ + decrypted_entries(self.data@, k as nat));
            }
        }
        res
    }
}

impl Storage<Aw11Ciphertext> {
    /// Lists the store as text: one line per record with its policy, or a
    /// note that the store is empty.
    pub fn to_string(&self) -> (res: String)
        ensures
            res@ == encrypted_listing(self@),
    {
        let mut res = String::new();
        if self.data.len() == 0 {
            res.append("Storage is empty");
            assert(res@ =~= "Storage is empty"@);
        } else {
            res.append("Encrypted storage:");
            let n: usize = self.data.len();
            let mut k: usize = 0;
            assert(res@ =~= "Encrypted storage:"@ + encrypted_entries(self.data@, 0));
            while k < n
                invariant
                    n == self.data@.len(),
                    k <= n,
                    res@ == "Encrypted storage:"@ + encrypted_entries(self.data@, k as nat),
                decreases n - k,
            {
                let policy = policy_of(&self.data[k]);
                let mut entry = String::from_str("\nEntry #");
                let number = decimal(k);
                entry.append(number.as_str());
                entry.append("\t Encryption policy: ");
                entry.append(policy.as_str());
                assert(entry@ =~= encrypted_entry(k as nat, self.data@[k as int]));
                res.append(entry.as_str());
                k += 1;
                assert(res@ =~= "Encrypted storage:"@ + encrypted_entries(self.data@, k as nat));
            }
        }
        res
    }

    /// Appends a ciphertext at the tail. The records already held keep their
    /// places, and the store grows by one.
    pub fn update(&mut self, new_ct: Aw11Ciphertext)
        ensures
            final(self)@ == old(self)@.push(new_ct),
            final(self)@.len() == old(self)@.len() + 1,
            forall|i: int| 0 <= i < old(self)@.len() ==> final(self)@[i] == old(self)@[i],
            final(self)@[old(self)@.len() as int] == new_ct,
    {
        self.data.push(new_ct)
    }

    /// Attempts every record with one secret key. Slot `i` of the result
    /// belongs to record `i`: it holds the plaintext where the scheme recovers
    /// one, and `None` where the scheme reports an error. A record that cannot
    /// be decrypted never hides another. The scheme's decryption must return
    /// on every record: an error is a return, a panic is none.
    pub fn decrypt(&self, gk: &Aw11GlobalKey, sk: &Aw11SecretKey) -> (r: Storage<Option<Vec<u8>>>)
        requires
            decrypt_all_returns(*gk, *sk, self@),
        ensures
            r@.len() == self@.len(),
            slots_view(r@) == decrypt_all(*gk, *sk, self@),
    {
        let mut decrypted_data: Vec<Option<Vec<u8>>> = Vec::new();
        let n: usize = self.data.len();
        let mut k: usize = 0;
        while k < n
            invariant
                self@ == self.data@,
                n == self@.len(),
                k <= n,
                decrypted_data@.len() == k,
                forall|i: int|
                    0 <= i < self@.len() ==> decrypt_returns(*gk, *sk, #[trigger] self@[i]),
                forall|i: int|
                    0 <= i < k ==> slot_view(#[trigger] decrypted_data@[i]) == decrypted(
                        *gk,
                        *sk,
                        self@[i],
                    ),
            decreases n - k,
        {
            match decrypt_ciphertext(gk, sk, &self.data[k]) {
                Ok(plaintext) => decrypted_data.push(Some(plaintext)),
                Err(_) => decrypted_data.push(None),
            }
            k += 1;
        }
        assert(slots_view(decrypted_data@) =~= decrypt_all(*gk, *sk, self@));
        Storage::new(decrypted_data)
    }
}

impl Serializable for Storage<Aw11Ciphertext> {
    open spec fn saved(&self) -> Option<Seq<char>> {
        json_of_ciphertexts(self@)
    }

    open spec fn loaded(text: Seq<char>) -> Option<Seq<Aw11Ciphertext>> {
        ciphertexts_of_json(text)
    }

    /// Writes the whole store as one JSON array, record after record.
    fn save(&self) -> (r: Result<String, StoreError>) {
        match ciphertexts_to_json(&self.data) {
            Ok(text) => Ok(text),
            Err(_) => Err(StoreError::SerializationError),
        }
    }

    /// Reads a store out of a JSON array of ciphertexts. A malformed text
    /// gives no store, not an empty one.
    fn load(text: &str) -> (r: Result<Self, StoreError>) {
        match ciphertexts_from_json(text) {
            Ok(data) => Ok(Storage { data }),
            Err(_) => Err(StoreError::StorageUnavailable),
        }
    }
}

} // verus!
