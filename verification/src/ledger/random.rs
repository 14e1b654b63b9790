use miden_client::crypto::FeltRng;
use miden_client::ClientRng;
use miden_core::Word;
use miden_objects::crypto::dsa::rpo_falcon512::{PublicKey, SecretKey};
use rand::RngCore;
use vstd::prelude::*;

verus! {

/// `miden_client::ClientRng`: the random source of a client session.
#[verifier::external_type_specification]
#[verifier::external_body]
pub struct ExClientRng(ClientRng);

/// `miden_crypto::dsa::rpo_falcon512::PublicKey`.
#[verifier::external_type_specification]
#[verifier::external_body]
pub struct ExPublicKey(PublicKey);

/// `miden_crypto::dsa::rpo_falcon512::SecretKey`.
#[verifier::external_type_specification]
#[verifier::external_body]
pub struct ExSecretKey(SecretKey);

/// The public key that belongs to a secret key, as `SecretKey::public_key`
/// computes it from the key alone.
pub uninterp spec fn public_key_of(secret: SecretKey) -> PublicKey;

/// `RngCore::fill_bytes` on 32 bytes. Nothing is known of what is drawn.
#[verifier::external_body]
pub(crate) fn draw_seed(rng: &mut ClientRng) -> (seed: [u8; 32]) {
    let mut seed: [u8; 32] = [0u8; 32];
    rng.fill_bytes(&mut seed);
    seed
}

/// `FeltRng::draw_word`. Nothing is known of what is drawn.
#[verifier::external_body]
pub(crate) fn draw_word(rng: &mut ClientRng) -> (word: Word) {
    rng.draw_word()
}

/// `SecretKey::with_rng`. Nothing is known of the key.
#[verifier::external_body]
pub(crate) fn generate_secret_key(rng: &mut ClientRng) -> (secret: SecretKey) {
    SecretKey::with_rng(rng)
}

/// `SecretKey::public_key`.
#[verifier::external_body]
pub(crate) fn public_key(secret: &SecretKey) -> (public: PublicKey)
    ensures
        public == public_key_of(*secret),
{
    secret.public_key()
}

} // verus!
