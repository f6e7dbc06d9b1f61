//! Ed25519 signing of text messages with a base-58 secret, and verification
//! of a base-64 signature against a base-58 address.
use vstd::prelude::*;
use vstd::string::StringSliceAdditionalSpecFns;
use vstd::utf8::encode_utf8;
use solana_sdk::signature::{Keypair, Signature};
use solana_sdk::signer::Signer;
use crate::address::{
    address_bytes, address_text, base64_text, decode_address, decode_signature, decode_secret,
    encode_base64, pubkey_text, secret_bytes, signature_bytes,
};
use crate::error::{error_is, ErrorKind};
use crate::keypair::{public_half, public_key_of};
pub use crate::error::ErrorResponse;

verus! {

/// Whether 64 bytes form a keypair: a seed, then the public key derived from it.
pub uninterp spec fn keypair_accepts(keypair: Seq<u8>) -> bool;

/// The Ed25519 signature of `message` under the keypair with bytes `keypair`.
pub uninterp spec fn ed25519_signature(keypair: Seq<u8>, message: Seq<u8>) -> Seq<u8>;

/// Whether `signature` is a valid Ed25519 signature of `message` by `pubkey`.
pub uninterp spec fn ed25519_verifies(signature: Seq<u8>, pubkey: Seq<u8>, message: Seq<u8>) -> bool;

/// Relies on `Keypair::try_from(&[u8])`: it accepts 64 bytes whose last 32
/// are the public key derived from the first 32.
#[verifier::external_body]
fn keypair_valid(keypair: &[u8; 64]) -> (r: bool)
    ensures
        r == keypair_accepts(keypair@),
{
    Keypair::try_from(&keypair[..]).is_ok()
}

/// Relies on `Signer::sign_message` of `Keypair`: deterministic Ed25519.
/// The keypair bytes are turned into a `Keypair` first, which they allow.
#[verifier::external_body]
fn ed25519_sign(keypair: &[u8; 64], message: &[u8]) -> (r: [u8; 64])
    requires
        keypair_accepts(keypair@),
    ensures
        r@ == ed25519_signature(keypair@, message@),
{
    let kp = Keypair::try_from(&keypair[..]).expect("bytes that form a keypair");
    kp.sign_message(message).into()
}

/// Relies on `Signature::verify`: strict Ed25519 verification; false also
/// where the 32 bytes are no public key.
#[verifier::external_body]
fn ed25519_verify(signature: &[u8; 64], pubkey: &[u8; 32], message: &[u8]) -> (r: bool)
    ensures
        r == ed25519_verifies(signature@, pubkey@, message@),
{
    Signature::from(*signature).verify(pubkey, message)
}

/// A request to sign `message` with the keypair written in `secret`.
#[derive(Clone, Debug)]
pub struct SignMessageRequest {
    pub message: String,
    pub secret: String,
}

/// A signature made: `success` is true.
#[derive(Clone, Debug)]
pub struct SignMessageResponse {
    pub success: bool,
    pub data: SignMessageData,
}

/// The base-64 signature, the signer's address, and the message echoed.
#[derive(Clone, Debug)]
pub struct SignMessageData {
    pub signature: String,
    pub public_key: String,
    pub message: String,
}

/// A request to check `signature` (base-64) on `message` by `pubkey` (base-58).
#[derive(Clone, Debug)]
pub struct VerifyMessageRequest {
    pub message: String,
    pub signature: String,
    pub pubkey: String,
}

/// A check made: `success` is true whatever `data.valid` says.
#[derive(Clone, Debug)]
pub struct VerifyMessageResponse {
    pub success: bool,
    pub data: VerifyMessageData,
}

/// Whether the signature holds, with the message and address echoed.
#[derive(Clone, Debug)]
pub struct VerifyMessageData {
    pub valid: bool,
    pub message: String,
    pub pubkey: String,
}

/// A signature, or why there is none.
#[derive(Clone, Debug)]
pub enum SignApiResponse {
    Success(SignMessageResponse),
    Error(ErrorResponse),
}

/// The outcome of a check, or why none was made.
#[derive(Clone, Debug)]
pub enum VerifyApiResponse {
    Success(VerifyMessageResponse),
    Error(ErrorResponse),
}

/// Why a sign request is refused, in the order the checks are made; `None`
/// where it is signed.
pub open spec fn sign_rejection(message: Seq<char>, secret: Seq<char>) -> Option<(ErrorKind, Seq<char>)> {
    if message.len() == 0 || secret.len() == 0 {
        Some((ErrorKind::MissingField, "Missing required fields"@))
    } else if encode_utf8(secret).len() < 32 || secret_bytes(secret) is None
        || !keypair_accepts(secret_bytes(secret)->Some_0) {
        Some((ErrorKind::InvalidEncoding, "Invalid secret key format"@))
    } else {
        None
    }
}

/// Why a verify request is refused, in the order the checks are made; `None`
/// where the check is made.
pub open spec fn verify_rejection(message: Seq<char>, signature: Seq<char>, pubkey: Seq<char>) -> Option<(ErrorKind, Seq<char>)> {
    if message.len() == 0 || signature.len() == 0 || pubkey.len() == 0 {
        Some((ErrorKind::MissingField, "Missing required fields"@))
    } else if address_bytes(pubkey) is None {
        Some((ErrorKind::InvalidEncoding, "Invalid public key format"@))
    } else if signature_bytes(signature) is None {
        Some((ErrorKind::InvalidEncoding, "Invalid signature format"@))
    } else {
        None
    }
}

/// Signs `message` (its UTF-8 bytes) with the keypair `keypair`.
pub fn signed_message(keypair: &[u8; 64], message: String) -> (r: SignMessageData)
    requires
        keypair_accepts(keypair@),
    ensures
        r.signature@ == base64_text(ed25519_signature(keypair@, encode_utf8(message@))),
        r.public_key@ == address_text(public_half(keypair@)),
        r.message@ == message@,
        signature_bytes(r.signature@) == Some(ed25519_signature(keypair@, encode_utf8(message@))),
        address_bytes(r.public_key@) == Some(public_half(keypair@)),
        r.signature@.len() > 0,
        r.public_key@.len() > 0,
{
    let signature = ed25519_sign(keypair, message.as_str().as_bytes());
    let public = public_key_of(keypair);
    SignMessageData {
        signature: encode_base64(&signature),
        public_key: pubkey_text(&public),
        message,
    }
}

/// Signs a message with a base-58 secret. Empty fields, a secret that does
/// not decode to 64 bytes, or 64 bytes that form no keypair are refused;
/// else the response holds the signature of the message's UTF-8 bytes.
pub fn sign_message(payload: SignMessageRequest) -> (r: SignApiResponse)
    ensures
        match sign_rejection(payload.message@, payload.secret@) {
            Some(e) => r matches SignApiResponse::Error(err) && error_is(err, e),
            None => r matches SignApiResponse::Success(ok) && ok.success && {
                let k = secret_bytes(payload.secret@)->Some_0;
                &&& ok.data.signature@ == base64_text(ed25519_signature(k, encode_utf8(payload.message@)))
                &&& ok.data.public_key@ == address_text(public_half(k))
                &&& ok.data.message@ == payload.message@
                &&& signature_bytes(ok.data.signature@) == Some(
                    ed25519_signature(k, encode_utf8(payload.message@)),
                )
                &&& address_bytes(ok.data.public_key@) == Some(public_half(k))
                &&& verify_rejection(payload.message@, ok.data.signature@, ok.data.public_key@) is None
            },
        },
{
    if payload.message.as_str().is_empty() || payload.secret.as_str().is_empty() {
        return SignApiResponse::Error(ErrorResponse::new(ErrorKind::MissingField, "Missing required fields"));
    }
    let invalid = "Invalid secret key format";
    if payload.secret.as_str().as_bytes().len() < 32 {
        return SignApiResponse::Error(ErrorResponse::new(ErrorKind::InvalidEncoding, invalid));
    }
    let keypair = match decode_secret(payload.secret.as_str()) {
        Some(k) => k,
        None => return SignApiResponse::Error(ErrorResponse::new(ErrorKind::InvalidEncoding, invalid)),
    };
    if !keypair_valid(&keypair) {
        return SignApiResponse::Error(ErrorResponse::new(ErrorKind::InvalidEncoding, invalid));
    }
    let data = signed_message(&keypair, payload.message);
    SignApiResponse::Success(SignMessageResponse { success: true, data })
}

/// Checks a base-64 signature of a message's UTF-8 bytes by a base-58
/// address. Empty fields, an address that does not parse, or a signature
/// that does not decode to 64 bytes are refused; a signature that decodes
/// but does not hold is a success with `valid` false.
pub fn verify_message(payload: VerifyMessageRequest) -> (r: VerifyApiResponse)
    ensures
        match verify_rejection(payload.message@, payload.signature@, payload.pubkey@) {
            Some(e) => r matches VerifyApiResponse::Error(err) && error_is(err, e),
            None => r matches VerifyApiResponse::Success(ok) && ok.success && {
                &&& ok.data.valid == ed25519_verifies(
                    signature_bytes(payload.signature@)->Some_0,
                    address_bytes(payload.pubkey@)->Some_0,
                    encode_utf8(payload.message@),
                )
                &&& ok.data.message@ == payload.message@
                &&& ok.data.pubkey@ == payload.pubkey@
            },
        },
{
    if payload.message.as_str().is_empty() || payload.signature.as_str().is_empty() || payload.pubkey.as_str().is_empty() {
        return VerifyApiResponse::Error(ErrorResponse::new(ErrorKind::MissingField, "Missing required fields"));
    }
    let pubkey = match decode_address(payload.pubkey.as_str()) {
        Some(k) => k,
        None => return VerifyApiResponse::Error(
            ErrorResponse::new(ErrorKind::InvalidEncoding, "Invalid public key format"),
        ),
    };
    let signature = match decode_signature(payload.signature.as_str()) {
        Some(s) => s,
        None => return VerifyApiResponse::Error(
            ErrorResponse::new(ErrorKind::InvalidEncoding, "Invalid signature format"),
        ),
    };
    let valid = ed25519_verify(&signature, &pubkey, payload.message.as_str().as_bytes());
    VerifyApiResponse::Success(VerifyMessageResponse {
        success: true,
        data: VerifyMessageData { valid, message: payload.message, pubkey: payload.pubkey },
    })
}

} // verus!
