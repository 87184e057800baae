//! Authorising, hashing and re-verifying password credentials.

use vstd::prelude::*;
use vstd::utf8::encode_utf8;
use crate::algo::{keyed_digest, salted, sign, verify, VerificationInput, HASH_BYTES, SALT_BYTES};
use crate::encoding::{base64_of, decode_base64, encode_base64};
use crate::generation::{Generational, GenerationId};
use crate::rotating::RotatingKeyStore;

verus! {

/// Identifier of a user.
pub type UserId = u128;

/// Who asks for a credential change, and whether the permission check found
/// that they may edit other users' credentials.
#[derive(Clone, Copy, Debug, PartialEq, Eq, Structural)]
pub struct Requester {
    pub user_id: UserId,
    pub can_edit_user_credentials: bool,
}

/// Login information for a password, as submitted. The plaintext is only held
/// until it is hashed.
pub struct Password {
    /// The user the password belongs to.
    pub user_id: UserId,
    /// The password itself.
    pub password: String,
}

/// Why a credential operation failed.
#[derive(Clone, Copy, Debug, PartialEq, Eq, Structural)]
pub enum CredentialError {
    /// The stored credential's key generation is no longer retained.
    GenerationNotFound,
    /// The requester is neither the owner nor allowed to edit others' credentials.
    Unauthorized,
    /// The number of live password records is not the one the operation expects.
    InvariantViolation,
    /// The credentials do not match.
    VerificationMismatch,
}

/// A password record to hand to the persistence layer: the base64 text of
/// the salt and of the digest, and the generation whose key made the digest.
pub struct PasswordRecord {
    pub user_id: UserId,
    /// The requester, written as the record's creator or updater.
    pub written_by: UserId,
    pub hash: String,
    pub salt: String,
    pub generation_id: GenerationId,
}

/// The digest a password's plaintext has under `key` with `salt`.
pub open spec fn password_digest(key: Seq<u8>, salt: Seq<u8>, plaintext: Seq<char>) -> Seq<u8> {
    keyed_digest(salted(salt, encode_utf8(plaintext)), HASH_BYTES as nat, key)
}

/// The stored salt and hash texts encode a fresh salt and the digest of
/// `plaintext` under `key` with that salt.
pub open spec fn stores_digest(
    salt_text: Seq<char>,
    hash_text: Seq<char>,
    key: Seq<u8>,
    plaintext: Seq<char>,
) -> bool {
    exists|salt: Seq<u8>|
        salt.len() == SALT_BYTES && salt_text == #[trigger] base64_of(salt) && hash_text
            == base64_of(password_digest(key, salt, plaintext))
}

/// What checking `plaintext` against a stored salt and digest gives, when the
/// stored generation's key is `key`.
pub open spec fn verification_of(
    key: Option<Seq<u8>>,
    salt: Seq<u8>,
    digest: Seq<u8>,
    plaintext: Seq<char>,
) -> Result<bool, CredentialError> {
    match key {
        None => Err(CredentialError::GenerationNotFound),
        Some(k) => Ok(digest == password_digest(k, salt, plaintext)),
    }
}

/// A credential that can be turned into a record to create, or into one that
/// replaces the user's existing record.
pub trait SavableCredential: Sized {
    /// What a successful conversion gives.
    type Success;
    /// What a failed conversion gives.
    type Error;

    /// What the conversion needs of the credential's surroundings.
    spec fn ready(&self) -> bool;

    /// `r` is a result the credential may convert to when creating.
    spec fn save_outcome(&self, r: Result<Self::Success, Self::Error>) -> bool;

    /// `r` is a result the credential may convert to when updating.
    spec fn update_outcome(&self, r: Result<Self::Success, Self::Error>) -> bool;

    /// Checks the credential and converts it into a new record.
    fn convert_and_save_with_credentials(self) -> (r: Result<Self::Success, Self::Error>)
        requires
            self.ready(),
        ensures
            self.save_outcome(r),
    ;

    /// Checks the credential and converts it into a record that replaces the
    /// existing one.
    fn convert_and_update_with_credentials(self) -> (r: Result<Self::Success, Self::Error>)
        requires
            self.ready(),
        ensures
            self.update_outcome(r),
    ;
}

/// A password together with the requester, the key store whose current key
/// hashes it, and the number of live password records its user has.
pub struct PasswordWithBackingInfo<'a, K: Generational> {
    pub credentials: &'a Requester,
    pub keys: &'a K,
    pub pw: &'a Password,
    pub existing_records: usize,
}

impl<'a, K: Generational> PasswordWithBackingInfo<'a, K> {
    /// The requester owns the password or may edit others' credentials.
    pub open spec fn requester_allowed(&self) -> bool {
        self.credentials.user_id == self.pw.user_id || self.credentials.can_edit_user_credentials
    }

    /// The outcome of checking and hashing when `target` live records are
    /// expected: `Unauthorized` first, then `InvariantViolation`, else a
    /// record of the requester, under the current generation, whose texts
    /// encode a fresh salt and the password's digest.
    pub open spec fn outcome(&self, target: usize, r: Result<PasswordRecord, CredentialError>) -> bool {
        if !self.requester_allowed() {
            r == Err::<PasswordRecord, CredentialError>(CredentialError::Unauthorized)
        } else if self.existing_records != target {
            r == Err::<PasswordRecord, CredentialError>(CredentialError::InvariantViolation)
        } else {
            &&& r is Ok
            &&& r->Ok_0.user_id == self.pw.user_id
            &&& r->Ok_0.written_by == self.credentials.user_id
            &&& r->Ok_0.generation_id == self.keys.current_id()
            &&& self.keys.lookup(self.keys.current_id()) is Some
            &&& stores_digest(
                r->Ok_0.salt@,
                r->Ok_0.hash@,
                self.keys.lookup(self.keys.current_id())->0,
                self.pw.password@,
            )
        }
    }

    /// Checks that the requester owns the password, or holds the permission
    /// to edit other users' credentials.
    fn verify_requester(&self) -> (r: bool)
        ensures
            r == self.requester_allowed(),
    {
        self.credentials.user_id == self.pw.user_id || self.credentials.can_edit_user_credentials
    }

    /// Checks that the user has exactly `target_count` live password records.
    fn verify_duplicates(&self, target_count: usize) -> (r: bool)
        ensures
            r == (self.existing_records == target_count),
    {
        self.existing_records == target_count
    }

    /// Checks the requester, then the number of live password records.
    fn verify(&self, duplicate_count: usize) -> (r: Result<(), CredentialError>)
        ensures
            !self.requester_allowed() ==> r == Err::<(), CredentialError>(
                CredentialError::Unauthorized,
            ),
            self.requester_allowed() && self.existing_records != duplicate_count ==> r == Err::<
                (),
                CredentialError,
            >(CredentialError::InvariantViolation),
            self.requester_allowed() && self.existing_records == duplicate_count ==> r is Ok,
    {
        if !self.verify_requester() {
            Err(CredentialError::Unauthorized)
        } else if !self.verify_duplicates(duplicate_count) {
            Err(CredentialError::InvariantViolation)
        } else {
            Ok(())
        }
    }

    /// Hashes the password with a freshly drawn salt under the current key.
    /// Returns the salt, the digest and the generation of the key.
    fn hash(&self) -> (r: (Vec<u8>, Vec<u8>, GenerationId))
        requires
            self.keys.well_formed(),
        ensures
            r.0@.len() == SALT_BYTES,
            r.1@.len() == HASH_BYTES,
            r.2 == self.keys.current_id(),
            self.keys.lookup(r.2) is Some,
            r.1@ == password_digest(self.keys.lookup(r.2)->0, r.0@, self.pw.password@),
    {
        let plaintext = vstd::slice::slice_to_vec(self.pw.password.as_str().as_bytes());
        let msg = VerificationInput::new_default_hash_len(plaintext, None);
        let generated_salt = vstd::slice::slice_to_vec(msg.salt());
        let (generation_id, key) = self.keys.current();
        let pw_hash = sign(&msg, key.as_slice());
        (generated_salt, pw_hash, generation_id)
    }

    /// Checks against `target` expected records, then hashes and encodes.
    fn check_and_hash(&self, target: usize) -> (r: Result<PasswordRecord, CredentialError>)
        requires
            self.keys.well_formed(),
        ensures
            self.outcome(target, r),
    {
        match self.verify(target) {
            Err(e) => Err(e),
            Ok(()) => {
                let (generated_salt, pw_hash, generation_id) = self.hash();
                let hash = encode_base64(pw_hash.as_slice());
                let salt = encode_base64(generated_salt.as_slice());
                assert(salt@ == base64_of(generated_salt@));
                Ok(
                    PasswordRecord {
                        user_id: self.pw.user_id,
                        written_by: self.credentials.user_id,
                        hash,
                        salt,
                        generation_id,
                    },
                )
            },
        }
    }
}

impl<'a, K: Generational> SavableCredential for PasswordWithBackingInfo<'a, K> {
    type Success = PasswordRecord;

    type Error = CredentialError;

    open spec fn ready(&self) -> bool {
        self.keys.well_formed()
    }

    open spec fn save_outcome(&self, r: Result<PasswordRecord, CredentialError>) -> bool {
        self.outcome(0, r)
    }

    open spec fn update_outcome(&self, r: Result<PasswordRecord, CredentialError>) -> bool {
        self.outcome(1, r)
    }

    fn convert_and_save_with_credentials(self) -> (r: Result<PasswordRecord, CredentialError>) {
        self.check_and_hash(0)
    }

    fn convert_and_update_with_credentials(self) -> (r: Result<PasswordRecord, CredentialError>) {
        self.check_and_hash(1)
    }
}

/// Creates the first password record of `pw.user_id`, who must have no live
/// password record yet.
pub fn create_password<K: Generational>(
    requester: &Requester,
    keys: &K,
    pw: &Password,
    existing_records: usize,
) -> (r: Result<PasswordRecord, CredentialError>)
    requires
        keys.well_formed(),
    ensures
        (PasswordWithBackingInfo { credentials: requester, keys, pw, existing_records }).outcome(
            0,
            r,
        ),
{
    let info = PasswordWithBackingInfo { credentials: requester, keys, pw, existing_records };
    info.convert_and_save_with_credentials()
}

/// Replaces the password record of `pw.user_id`, who must have exactly one
/// live password record.
pub fn update_password<K: Generational>(
    requester: &Requester,
    keys: &K,
    pw: &Password,
    existing_records: usize,
) -> (r: Result<PasswordRecord, CredentialError>)
    requires
        keys.well_formed(),
    ensures
        (PasswordWithBackingInfo { credentials: requester, keys, pw, existing_records }).outcome(
            1,
            r,
        ),
{
    let info = PasswordWithBackingInfo { credentials: requester, keys, pw, existing_records };
    info.convert_and_update_with_credentials()
}

/// Checks `plaintext` against a stored record: its base64 salt and hash texts
/// and the generation whose key made the hash. A generation that is no longer
/// retained gives `GenerationNotFound`; texts that do not decode match
/// nothing.
pub fn verify_password<K: Generational>(
    keys: &K,
    plaintext: &str,
    stored_salt: &str,
    stored_hash: &str,
    stored_generation_id: GenerationId,
) -> (r: Result<bool, CredentialError>)
    requires
        keys.well_formed(),
    ensures
        keys.lookup(stored_generation_id) is None ==> r == Err::<bool, CredentialError>(
            CredentialError::GenerationNotFound,
        ),
        keys.lookup(stored_generation_id) is Some ==> r is Ok,
        forall|salt: Seq<u8>, digest: Seq<u8>|
            #![trigger base64_of(salt), base64_of(digest)]
            base64_of(salt) == stored_salt@ && base64_of(digest) == stored_hash@ ==> r
                == verification_of(keys.lookup(stored_generation_id), salt, digest, plaintext@),
{
    let key = match keys.by_id(stored_generation_id) {
        Ok(k) => k,
        Err(_) => {
            return Err(CredentialError::GenerationNotFound);
        },
    };
    let salt = match decode_base64(stored_salt) {
        Ok(s) => s,
        Err(_) => {
            return Ok(false);
        },
    };
    let expected = match decode_base64(stored_hash) {
        Ok(h) => h,
        Err(_) => {
            return Ok(false);
        },
    };
    let ghost salt_bytes = salt@;
    let plain = vstd::slice::slice_to_vec(plaintext.as_bytes());
    let input = VerificationInput::new(plain, salt, HASH_BYTES);
    let matched = verify(&input, key.as_slice(), expected.as_slice());
    assert(input.digest_under(key@) == password_digest(key@, salt_bytes, plaintext@));
    Ok(matched)
}

/// Checks `plaintext` against a stored record and answers at the login
/// boundary: every failure, a mismatch or an evicted generation alike, is
/// the same `VerificationMismatch`.
pub fn authenticate<K: Generational>(
    keys: &K,
    plaintext: &str,
    stored_salt: &str,
    stored_hash: &str,
    stored_generation_id: GenerationId,
) -> (r: Result<(), CredentialError>)
    requires
        keys.well_formed(),
    ensures
        r is Err ==> r == Err::<(), CredentialError>(CredentialError::VerificationMismatch),
        keys.lookup(stored_generation_id) is None ==> r is Err,
        forall|salt: Seq<u8>, digest: Seq<u8>|
            #![trigger base64_of(salt), base64_of(digest)]
            base64_of(salt) == stored_salt@ && base64_of(digest) == stored_hash@ ==> (r is Ok
                <==> verification_of(keys.lookup(stored_generation_id), salt, digest, plaintext@)
                == Ok::<bool, CredentialError>(true)),
{
    match verify_password(keys, plaintext, stored_salt, stored_hash, stored_generation_id) {
        Ok(true) => Ok(()),
        _ => Err(CredentialError::VerificationMismatch),
    }
}

/// Hashing a password under a generation's key and verifying the same
/// plaintext against the stored salt and digest under that generation
/// matches. Another plaintext matches only where its digest under that key
/// and salt is the very same digest.
pub proof fn lemma_hash_then_verify(
    key: Seq<u8>,
    salt: Seq<u8>,
    plaintext: Seq<char>,
    other: Seq<char>,
)
    ensures
        verification_of(Some(key), salt, password_digest(key, salt, plaintext), plaintext) == Ok::<
            bool,
            CredentialError,
        >(true),
        verification_of(Some(key), salt, password_digest(key, salt, plaintext), other) == Ok::<
            bool,
            CredentialError,
        >(password_digest(key, salt, plaintext) == password_digest(key, salt, other)),
{
}

/// A rotation that moves a generation beyond the retention bound evicts it:
/// verifying any credential stored under it then gives `GenerationNotFound`,
/// never a match.
pub proof fn lemma_evicted_generation_not_found(
    pre: &RotatingKeyStore,
    post: &RotatingKeyStore,
    material: Seq<u8>,
    generation_id: GenerationId,
    salt: Seq<u8>,
    digest: Seq<u8>,
    plaintext: Seq<char>,
)
    requires
        pre.well_formed(),
        RotatingKeyStore::rotated(pre, post, material),
        generation_id + pre.retention_spec() < post.current_id(),
    ensures
        post.lookup(generation_id) is None,
        verification_of(post.lookup(generation_id), salt, digest, plaintext) == Err::<
            bool,
            CredentialError,
        >(CredentialError::GenerationNotFound),
{
}

} // verus!
