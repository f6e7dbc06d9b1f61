//! Fresh Ed25519 keypairs, written as an address and a base-58 secret.
use vstd::prelude::*;
use solana_sdk::signature::Keypair;
use crate::address::{address_bytes, address_text, base58_text, encode_base58, pubkey_text, secret_bytes};
use crate::message::keypair_accepts;
pub use crate::error::ErrorResponse;

verus! {

/// A generated keypair: `success` is true.
#[derive(Clone, Debug)]
pub struct KeypairResponse {
    pub success: bool,
    pub data: KeypairData,
}

/// The address and the base-58 text of the 64 secret bytes.
#[derive(Clone, Debug)]
pub struct KeypairData {
    pub pubkey: String,
    pub secret: String,
}

/// A keypair, or why there is none.
#[derive(Clone, Debug)]
pub enum ApiResponse {
    Success(KeypairResponse),
    Error(ErrorResponse),
}

/// Relies on `Keypair::new` (randomness of the operating system) and
/// `Keypair::to_bytes`: 64 bytes, the seed and then the public key derived
/// from it, which `Keypair::try_from` accepts.
#[verifier::external_body]
fn fresh_keypair() -> (r: [u8; 64])
    ensures
        keypair_accepts(r@),
{
    Keypair::new().to_bytes()
}

/// The public half of 64 keypair bytes: the last 32.
pub open spec fn public_half(keypair: Seq<u8>) -> Seq<u8> {
    keypair.subrange(32, 64)
}

/// Copies the public half out of 64 keypair bytes.
pub fn public_key_of(keypair: &[u8; 64]) -> (r: [u8; 32])
    ensures
        r@ == public_half(keypair@),
{
    let mut r: [u8; 32] = [0u8; 32];
    let mut i: usize = 0;
    while i < 32
        invariant
            i <= 32,
            forall|j: int| 0 <= j < i ==> r@[j] == keypair@[j + 32],
        decreases 32 - i,
    {
        r[i] = keypair[i + 32];
        i = i + 1;
    }
    assert(r@ =~= public_half(keypair@));
    r
}

/// The response for the keypair with bytes `keypair`: its address, and the
/// base-58 text of all 64 bytes as the secret.
pub fn keypair_response(keypair: &[u8; 64]) -> (r: KeypairResponse)
    ensures
        r.success,
        r.data.pubkey@ == address_text(public_half(keypair@)),
        r.data.secret@ == base58_text(keypair@),
        secret_bytes(r.data.secret@) == Some(keypair@),
        address_bytes(r.data.pubkey@) == Some(public_half(keypair@)),
{
    let public = public_key_of(keypair);
    KeypairResponse {
        success: true,
        data: KeypairData { pubkey: pubkey_text(&public), secret: encode_base58(keypair) },
    }
}

/// Generates a fresh keypair. Whatever bytes came out of the generator, the
/// response shows them as `keypair_response` does: the secret decodes back
/// to 64 bytes that form a keypair, and the address is their public half.
pub fn get_keypair() -> (r: ApiResponse)
    ensures
        r matches ApiResponse::Success(ok) && ok.success,
        r matches ApiResponse::Success(ok) ==> exists|k: Seq<u8>|
            k.len() == 64
            && keypair_accepts(k)
            && ok.data.pubkey@ == address_text(public_half(k))
            && ok.data.secret@ == base58_text(k)
            && secret_bytes(ok.data.secret@) == Some(k)
            && address_bytes(ok.data.pubkey@) == Some(public_half(k)),
{
    let keypair = fresh_keypair();
    ApiResponse::Success(keypair_response(&keypair))
}

} // verus!
