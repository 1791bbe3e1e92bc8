use vstd::prelude::*;

use crate::account::AccountId;

verus! {

/// Length in bytes of an sr25519 signature.
pub const SIGNATURE_LEN: usize = 64;

/// Whether sr25519 verification accepts `signature` (64 bytes) over `message`
/// for the public key `public_key` (32 bytes), under the signing context
/// `substrate`. It depends on these bytes alone.
pub uninterp spec fn sr25519_accepts(signature: Seq<u8>, message: Seq<u8>, public_key: Seq<u8>) -> bool;

/// Whether `signature` proves that the holder of `caller`'s key signed
/// exactly `message`: it has the length of an sr25519 signature and
/// verification accepts it.
pub open spec fn signature_valid(caller: AccountId, message: Seq<u8>, signature: Seq<u8>) -> bool {
    signature.len() == SIGNATURE_LEN && sr25519_accepts(signature, message, caller.0@)
}

/// Relies on ink::env::sr25519_verify: `Ok` exactly when the signature
/// verifies for the message and public key (schnorrkel's `verify_simple`
/// with the context `substrate`, or the host's equivalent on chain).
#[verifier::external_body]
fn sr25519_verify(signature: &[u8; 64], message: &[u8], public_key: &[u8; 32]) -> (r: bool)
    ensures
        r == sr25519_accepts(signature@, message@, public_key@),
{
    ink::env::sr25519_verify(signature, message, public_key).is_ok()
}

/// Checks that `signature` is a valid sr25519 signature over `message` by the
/// key of `caller`. A signature of any length but 64 bytes is rejected.
pub fn verify_signature(caller: &AccountId, message: &[u8], signature: &[u8]) -> (r: bool)
    ensures
        r == signature_valid(*caller, message@, signature@),
{
    if signature.len() != SIGNATURE_LEN {
        return false;
    }
    let mut bytes = [0u8; 64];
    let mut i: usize = 0;
    while i < SIGNATURE_LEN
        invariant
            signature@.len() == SIGNATURE_LEN,
            0 <= i <= SIGNATURE_LEN,
            forall|k: int| 0 <= k < i ==> bytes[k] == signature@[k],
        decreases SIGNATURE_LEN - i,
    {
        bytes[i] = signature[i];
        i = i + 1;
    }
    assert(bytes@ =~= signature@);
    sr25519_verify(&bytes, message, &caller.0)
}

} // verus!
