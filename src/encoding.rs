//! The fixed text encoding of stored hashes and salts.

use vstd::prelude::*;

verus! {

/// The standard, padded base64 text of `bytes`.
pub uninterp spec fn base64_of(bytes: Seq<u8>) -> Seq<char>;

/// Relies on base64::encode: the standard, padded base64 text of the input.
#[verifier::external_body]
pub(crate) fn encode_base64(bytes: &[u8]) -> (r: String)
    requires
        bytes@.len() <= usize::MAX / 2,
    ensures
        r@ == base64_of(bytes@),
{
    base64::encode(bytes)
}

/// Relies on base64::decode: text that `base64::encode` produced from some
/// bytes decodes to exactly those bytes.
#[verifier::external_body]
pub(crate) fn decode_base64(text: &str) -> (r: Result<Vec<u8>, ()>)
    ensures
        forall|b: Seq<u8>| #[trigger] base64_of(b) == text@ ==> r is Ok && r->Ok_0@ == b,
{
    base64::decode(text).map_err(|_| ())
}

} // verus!
