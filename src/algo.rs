//! Keyed hashing of a salted plaintext, and constant-time verification.

use vstd::prelude::*;

verus! {

/// Length in bytes of the key material of one generation.
pub const KEY_BYTES: usize = 32;

/// Length in bytes of a freshly drawn salt.
pub const SALT_BYTES: usize = 16;

/// Default length in bytes of a digest.
pub const HASH_BYTES: usize = 32;

/// Smallest digest length the keyed hash accepts.
pub const DIGEST_MIN: usize = 16;

/// Largest digest length the keyed hash accepts.
pub const DIGEST_MAX: usize = 64;

/// Smallest key length the keyed hash accepts.
pub const KEY_MIN: usize = 16;

/// Largest key length the keyed hash accepts.
pub const KEY_MAX: usize = 64;

/// The keyed BLAKE2b digest of `data` with `out_len` output bytes under `key`.
pub uninterp spec fn keyed_digest(data: Seq<u8>, out_len: nat, key: Seq<u8>) -> Seq<u8>;

/// Relies on sodiumoxide::crypto::generichash::hash: a keyed digest of `data`,
/// refused exactly when the output length or the key length is out of range.
#[verifier::external_body]
fn generic_hash(data: &[u8], out_len: usize, key: &[u8]) -> (r: Result<Vec<u8>, ()>)
    ensures
        r is Ok <==> (DIGEST_MIN <= out_len <= DIGEST_MAX && KEY_MIN <= key@.len() <= KEY_MAX),
        r is Ok ==> r->Ok_0@ == keyed_digest(data@, out_len as nat, key@),
        r is Ok ==> r->Ok_0@.len() == out_len,
{
    sodiumoxide::crypto::generichash::hash(data, Some(out_len), Some(key)).map(
        |d| d.as_ref().to_vec(),
    )
}

/// Relies on sodiumoxide::utils::memcmp: equality of two byte strings, in time
/// independent of their contents.
#[verifier::external_body]
fn constant_time_eq(x: &[u8], y: &[u8]) -> (r: bool)
    ensures
        r == (x@ == y@),
{
    sodiumoxide::utils::memcmp(x, y)
}

/// Relies on sodiumoxide::randombytes::randombytes: `size` bytes from the
/// system's secure random source.
#[verifier::external_body]
pub(crate) fn random_bytes(size: usize) -> (r: Vec<u8>)
    ensures
        r@.len() == size,
{
    sodiumoxide::randombytes::randombytes(size)
}

/// Relies on sodiumoxide::init: readies the sodium library so that its
/// functions may be used from several threads.
#[verifier::external_body]
pub fn multithread_init() -> (r: Result<(), ()>) {
    sodiumoxide::init()
}

/// The bytes a digest is computed over: the salt, then the plaintext.
pub open spec fn salted(salt: Seq<u8>, plaintext: Seq<u8>) -> Seq<u8> {
    salt + plaintext
}

/// The plaintext, the salt and the digest length of one sign or verify call.
pub struct VerificationInput {
    plaintext: Vec<u8>,
    salt: Vec<u8>,
    hash_len: usize,
}

impl VerificationInput {
    pub closed spec fn plaintext_spec(&self) -> Seq<u8> {
        self.plaintext@
    }

    pub closed spec fn salt_spec(&self) -> Seq<u8> {
        self.salt@
    }

    pub closed spec fn hash_len_spec(&self) -> nat {
        self.hash_len as nat
    }

    /// The digest that signing this input under `key` produces.
    pub open spec fn digest_under(&self, key: Seq<u8>) -> Seq<u8> {
        keyed_digest(salted(self.salt_spec(), self.plaintext_spec()), self.hash_len_spec(), key)
    }

    /// An input with the default digest length. With no salt given a fresh
    /// one of `SALT_BYTES` random bytes is drawn.
    pub fn new_default_hash_len(plaintext: Vec<u8>, salt: Option<Vec<u8>>) -> (r: Self)
        ensures
            r.plaintext_spec() == plaintext@,
            r.hash_len_spec() == HASH_BYTES,
            salt is Some ==> r.salt_spec() == salt->0@,
            salt is None ==> r.salt_spec().len() == SALT_BYTES,
    {
        let salt = match salt {
            Some(s) => s,
            None => random_bytes(SALT_BYTES),
        };
        VerificationInput { plaintext, salt, hash_len: HASH_BYTES }
    }

    /// An input with an explicit digest length.
    pub fn new(plaintext: Vec<u8>, salt: Vec<u8>, hash_len: usize) -> (r: Self)
        requires
            DIGEST_MIN <= hash_len <= DIGEST_MAX,
        ensures
            r.plaintext_spec() == plaintext@,
            r.salt_spec() == salt@,
            r.hash_len_spec() == hash_len,
    {
        VerificationInput { plaintext, salt, hash_len }
    }

    pub fn salt(&self) -> (r: &[u8])
        ensures
            r@ == self.salt_spec(),
    {
        self.salt.as_slice()
    }

    /// Whether the input can be signed: its digest length is one the keyed
    /// hash accepts.
    pub open spec fn well_formed(&self) -> bool {
        DIGEST_MIN <= self.hash_len_spec() <= DIGEST_MAX
    }
}

/// Computes the keyed digest of the salted plaintext. The salt is taken from
/// the input and never drawn here.
pub fn sign(input: &VerificationInput, key: &[u8]) -> (r: Vec<u8>)
    requires
        input.well_formed(),
        KEY_MIN <= key@.len() <= KEY_MAX,
    ensures
        r@ == input.digest_under(key@),
        r@.len() == input.hash_len_spec(),
{
    let mut data: Vec<u8> = input.salt.clone();
    let mut tail: Vec<u8> = input.plaintext.clone();
    data.append(&mut tail);
    assert(data@ == salted(input.salt@, input.plaintext@));
    match generic_hash(data.as_slice(), input.hash_len, key) {
        Ok(d) => d,
        Err(_) => {
            assert(false);
            Vec::new()
        },
    }
}

/// Recomputes the digest with the salt and length carried by the input and
/// compares it with `expected` in constant time.
pub fn verify(input: &VerificationInput, key: &[u8], expected: &[u8]) -> (r: bool)
    requires
        input.well_formed(),
        KEY_MIN <= key@.len() <= KEY_MAX,
    ensures
        r == (input.digest_under(key@) == expected@),
{
    let digest = sign(input, key);
    constant_time_eq(digest.as_slice(), expected)
}

} // verus!
