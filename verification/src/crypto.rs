//! The threshold-cryptography primitives this library builds on. Everything
//! here is taken on trust from the `threshold_crypto` crate: the contracts
//! below are statements about that crate's code, not theorems.

use vstd::prelude::*;
use threshold_crypto::{
    PublicKey, PublicKeySet, PublicKeyShare, SecretKeyShare, Signature, SignatureShare,
};

verus! {

/// `threshold_crypto::PublicKeySet`: the public commitment of a distributed key.
#[verifier::external_type_specification]
#[verifier::external_body]
pub struct ExPublicKeySet(threshold_crypto::PublicKeySet);

/// `threshold_crypto::PublicKey`: the public key of the whole group.
#[verifier::external_type_specification]
#[verifier::external_body]
pub struct ExPublicKey(threshold_crypto::PublicKey);

/// `threshold_crypto::PublicKeyShare`: the public key of one holder.
#[verifier::external_type_specification]
#[verifier::external_body]
pub struct ExPublicKeyShare(threshold_crypto::PublicKeyShare);

/// `threshold_crypto::SecretKeyShare`: the secret fragment of one holder.
#[verifier::external_type_specification]
#[verifier::external_body]
pub struct ExSecretKeyShare(threshold_crypto::SecretKeyShare);

/// `threshold_crypto::SignatureShare`: one holder's partial signature.
#[verifier::external_type_specification]
#[verifier::external_body]
pub struct ExSignatureShare(threshold_crypto::SignatureShare);

/// `threshold_crypto::Signature`: a full signature.
#[verifier::external_type_specification]
#[verifier::external_body]
pub struct ExSignature(threshold_crypto::Signature);

/// `threshold_crypto::error::Error`: why a combination was refused.
#[verifier::external_type_specification]
#[verifier::external_body]
pub struct ExCryptoError(threshold_crypto::error::Error);

/// Whether a key set has no coefficient at all: whether `PublicKeySet::eq`
/// finds it equal to the key set of the zero polynomial.
pub uninterp spec fn key_set_is_empty(keys: PublicKeySet) -> bool;

/// The threshold `t` of a key set, as `PublicKeySet::threshold` reports it.
pub uninterp spec fn key_set_threshold(keys: PublicKeySet) -> nat;

/// The group's public key, as `PublicKeySet::public_key` reports it.
pub uninterp spec fn group_key(keys: PublicKeySet) -> PublicKey;

/// Whether `PublicKey::verify` accepts a signature for a message.
pub uninterp spec fn signature_verifies(key: PublicKey, signature: Signature, message: Seq<u8>) -> bool;

/// The public key share that `PublicKeySet::public_key_share` derives for a holder.
pub uninterp spec fn derived_key_share(keys: PublicKeySet, index: usize) -> PublicKeyShare;

/// Whether `PublicKeyShare::verify` accepts a partial signature for a message.
pub uninterp spec fn share_verifies(key: PublicKeyShare, share: SignatureShare, message: Seq<u8>) -> bool;

/// The partial signature that `SecretKeyShare::sign` produces for a message.
pub uninterp spec fn share_signature(secret: SecretKeyShare, message: Seq<u8>) -> SignatureShare;

/// The signature that `PublicKeySet::combine_signatures` interpolates from
/// indexed partial signatures, taken in the order given.
pub uninterp spec fn interpolated(keys: PublicKeySet, shares: Seq<(usize, SignatureShare)>) -> Signature;

/// No two entries of `shares` carry the same holder index.
pub open spec fn distinct_indices(shares: Seq<(usize, SignatureShare)>) -> bool {
    forall|i: int, j: int|
        0 <= i < j < shares.len() ==> (#[trigger] shares[i]).0 != (#[trigger] shares[j]).0
}

/// `PublicKeySet::eq`, against the key set that `Poly::zero()` commits to,
/// which has no coefficient. Trusted: the verdict is a function of the key
/// set alone.
#[verifier::external_body]
pub(crate) fn is_empty_key_set(keys: &PublicKeySet) -> (empty: bool)
    ensures
        empty == key_set_is_empty(*keys),
{
    *keys == PublicKeySet::from(threshold_crypto::poly::Poly::zero().commitment())
}

/// `PublicKeySet::threshold`: the degree of the committed polynomial, which
/// the crate computes as the number of coefficients less one; hence no call
/// on a key set without coefficients. Trusted: the result is a function of
/// the key set alone.
#[verifier::external_body]
pub(crate) fn threshold(keys: &PublicKeySet) -> (t: usize)
    requires
        !key_set_is_empty(*keys),
    ensures
        t == key_set_threshold(*keys),
{
    keys.threshold()
}

/// `PublicKeySet::public_key`: the first coefficient of the commitment; hence
/// no call on a key set without coefficients. Trusted: the result is a
/// function of the key set alone.
#[verifier::external_body]
pub(crate) fn public_key(keys: &PublicKeySet) -> (key: PublicKey)
    requires
        !key_set_is_empty(*keys),
    ensures
        key == group_key(*keys),
{
    keys.public_key()
}

/// `PublicKey::verify`: the pairing check of a signature against the hash of
/// the message. Trusted: the verdict is a function of the key, the signature
/// and the message bytes.
#[verifier::external_body]
pub(crate) fn verify_signature(key: &PublicKey, signature: &Signature, message: &[u8]) -> (ok: bool)
    ensures
        ok == signature_verifies(*key, *signature, message@),
{
    key.verify(signature, message)
}

/// `PublicKeySet::public_key_share`: evaluates the commitment at the holder's
/// point. Trusted: the result is a function of the key set and the index.
#[verifier::external_body]
pub(crate) fn public_key_share(keys: &PublicKeySet, index: usize) -> (key: PublicKeyShare)
    ensures
        key == derived_key_share(*keys, index),
{
    keys.public_key_share(index)
}

/// `PublicKeyShare::verify`: the pairing check of a partial signature against
/// the hash of the message. Trusted: the verdict is a function of the key, the
/// partial signature and the message bytes.
#[verifier::external_body]
pub(crate) fn verify_share(key: &PublicKeyShare, share: &SignatureShare, message: &[u8]) -> (ok: bool)
    ensures
        ok == share_verifies(*key, *share, message@),
{
    key.verify(share, message)
}

/// `SecretKeyShare::sign`: signs the hash of the message with the secret
/// fragment. Trusted: signing is deterministic, a function of the secret and
/// the message bytes.
#[verifier::external_body]
pub(crate) fn sign_with_share(secret: &SecretKeyShare, message: &[u8]) -> (share: SignatureShare)
    ensures
        share == share_signature(*secret, message@),
{
    secret.sign(message)
}

/// `PublicKeySet::combine_signatures`: Lagrange interpolation over the leading
/// `threshold + 1` entries. Trusted, as the crate's source shows: it refuses
/// with too few entries; with more than `threshold` entries of pairwise
/// distinct indices it succeeds; and its output is a function of the key set
/// and the entries in their order. It does not check the partial signatures.
/// It takes the threshold as `PublicKeySet::threshold` does, hence no call on
/// a key set without coefficients.
#[verifier::external_body]
pub(crate) fn combine_signatures(keys: &PublicKeySet, shares: &Vec<(usize, SignatureShare)>) -> (r: Result<Signature, threshold_crypto::error::Error>)
    requires
        !key_set_is_empty(*keys),
    ensures
        r is Ok ==> shares@.len() > key_set_threshold(*keys),
        shares@.len() > key_set_threshold(*keys) && distinct_indices(shares@) ==> r is Ok,
        r matches Ok(signature) ==> signature == interpolated(*keys, shares@),
{
    keys.combine_signatures(shares.iter().map(|entry| (entry.0, &entry.1)))
}

} // verus!
