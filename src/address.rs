//! Text encodings of keys and signatures: addresses and secrets are base-58,
//! signatures and instruction payloads are base-64.
use vstd::prelude::*;
use vstd::string::StringSliceAdditionalSpecFns;
use base64::Engine;
use std::str::FromStr;
use solana_sdk::pubkey::Pubkey;

verus! {

/// The 32 bytes that address text parses to, or `None` where it is no address.
pub uninterp spec fn address_bytes(text: Seq<char>) -> Option<Seq<u8>>;

/// The base-58 text that an address is written as.
pub uninterp spec fn address_text(bytes: Seq<u8>) -> Seq<char>;

/// The bytes that base-58 text decodes to, of any length, or `None`.
pub uninterp spec fn base58_bytes(text: Seq<char>) -> Option<Seq<u8>>;

/// The base-58 text of a byte string of any length.
pub uninterp spec fn base58_text(bytes: Seq<u8>) -> Seq<char>;

/// The bytes that standard padded base-64 text decodes to, or `None`.
pub uninterp spec fn base64_bytes(text: Seq<char>) -> Option<Seq<u8>>;

/// The standard padded base-64 text of a byte string.
pub uninterp spec fn base64_text(bytes: Seq<u8>) -> Seq<char>;

/// Relies on `Pubkey::from_str`: it decodes base-58 text to exactly 32 bytes,
/// and refuses empty text and text of more than 44 bytes.
#[verifier::external_body]
fn parse_pubkey(text: &str) -> (r: Option<[u8; 32]>)
    ensures
        r matches Some(b) ==> address_bytes(text@) == Some(b@),
        r is None ==> address_bytes(text@) is None,
        text@.len() == 0 ==> r is None,
        text.spec_bytes().len() > 44 ==> r is None,
{
    Pubkey::from_str(text).ok().map(|k| k.to_bytes())
}

/// Relies on `Pubkey`'s `Display`: the base-58 text of the 32 bytes, which
/// `Pubkey::from_str` parses back to them.
#[verifier::external_body]
fn pubkey_to_text(bytes: &[u8; 32]) -> (r: String)
    ensures
        r@ == address_text(bytes@),
        address_bytes(r@) == Some(bytes@),
        r@.len() > 0,
{
    Pubkey::new_from_array(*bytes).to_string()
}

/// Relies on `bs58::decode(..).into_vec()`: the bytes of base-58 text.
#[verifier::external_body]
fn b58_decode(text: &str) -> (r: Option<Vec<u8>>)
    ensures
        r matches Some(v) ==> base58_bytes(text@) == Some(v@),
        r is None ==> base58_bytes(text@) is None,
{
    bs58::decode(text).into_vec().ok()
}

/// Relies on `bs58::encode(..).into_string()`: the base-58 text of bytes,
/// which `bs58::decode` turns back into them.
#[verifier::external_body]
fn b58_encode(bytes: &[u8]) -> (r: String)
    ensures
        r@ == base58_text(bytes@),
        base58_bytes(r@) == Some(bytes@),
{
    bs58::encode(bytes).into_string()
}

/// Relies on `base64`'s `STANDARD.decode`: the bytes of padded base-64 text.
#[verifier::external_body]
fn b64_decode(text: &str) -> (r: Option<Vec<u8>>)
    ensures
        r matches Some(v) ==> base64_bytes(text@) == Some(v@),
        r is None ==> base64_bytes(text@) is None,
{
    base64::engine::general_purpose::STANDARD.decode(text).ok()
}

/// Relies on `base64`'s `STANDARD.encode`: padded base-64 text of bytes,
/// which `STANDARD.decode` turns back into them; not empty for bytes that
/// are not.
#[verifier::external_body]
fn b64_encode(bytes: &[u8]) -> (r: String)
    ensures
        r@ == base64_text(bytes@),
        base64_bytes(r@) == Some(bytes@),
        bytes@.len() > 0 ==> r@.len() > 0,
{
    base64::engine::general_purpose::STANDARD.encode(bytes)
}

/// What `decode_secret` accepts: text that decodes to exactly 64 bytes.
pub open spec fn secret_bytes(text: Seq<char>) -> Option<Seq<u8>> {
    match base58_bytes(text) {
        Some(b) => if b.len() == 64 { Some(b) } else { None },
        None => None,
    }
}

/// What `decode_signature` accepts: base-64 text of exactly 64 bytes.
pub open spec fn signature_bytes(text: Seq<char>) -> Option<Seq<u8>> {
    match base64_bytes(text) {
        Some(b) => if b.len() == 64 { Some(b) } else { None },
        None => None,
    }
}

/// Parses address text to its 32 bytes, or `None` where it is no address.
pub fn decode_address(text: &str) -> (r: Option<[u8; 32]>)
    ensures
        r matches Some(b) ==> address_bytes(text@) == Some(b@) && b@.len() == 32,
        r is None <==> address_bytes(text@) is None,
        text@.len() == 0 ==> r is None,
{
    parse_pubkey(text)
}

/// Copies a 64-byte sequence into an array.
fn to_array_64(v: &Vec<u8>) -> (r: [u8; 64])
    requires
        v@.len() == 64,
    ensures
        r@ == v@,
{
    let mut r: [u8; 64] = [0u8; 64];
    let mut i: usize = 0;
    while i < 64
        invariant
            i <= 64,
            v@.len() == 64,
            forall|j: int| 0 <= j < i ==> r@[j] == v@[j],
        decreases 64 - i,
    {
        r[i] = v[i];
        i = i + 1;
    }
    assert(r@ =~= v@);
    r
}

/// Decodes secret text: base-58 that decodes to exactly 64 bytes (a 32-byte
/// seed, then a 32-byte public key). Any other length is refused.
pub fn decode_secret(text: &str) -> (r: Option<[u8; 64]>)
    ensures
        r matches Some(b) ==> secret_bytes(text@) == Some(b@) && base58_bytes(text@) == Some(b@),
        r is None <==> secret_bytes(text@) is None,
        base58_bytes(text@) matches Some(b) && b.len() != 64 ==> r is None,
        base58_bytes(text@) is None ==> r is None,
{
    match b58_decode(text) {
        Some(v) => {
            if v.len() == 64 {
                Some(to_array_64(&v))
            } else {
                None
            }
        },
        None => None,
    }
}

/// Decodes signature text: padded base-64 that decodes to exactly 64 bytes.
pub fn decode_signature(text: &str) -> (r: Option<[u8; 64]>)
    ensures
        r matches Some(b) ==> signature_bytes(text@) == Some(b@) && base64_bytes(text@) == Some(b@),
        r is None <==> signature_bytes(text@) is None,
        base64_bytes(text@) matches Some(b) && b.len() != 64 ==> r is None,
{
    match b64_decode(text) {
        Some(v) => {
            if v.len() == 64 {
                Some(to_array_64(&v))
            } else {
                None
            }
        },
        None => None,
    }
}

/// The text of an address, which `decode_address` parses back to it.
pub fn pubkey_text(bytes: &[u8; 32]) -> (r: String)
    ensures
        r@ == address_text(bytes@),
        address_bytes(r@) == Some(bytes@),
        r@.len() > 0,
{
    pubkey_to_text(bytes)
}

/// The base-58 text of bytes of any length (a secret, for one).
pub fn encode_base58(bytes: &[u8]) -> (r: String)
    ensures
        r@ == base58_text(bytes@),
        base58_bytes(r@) == Some(bytes@),
{
    b58_encode(bytes)
}

/// The padded base-64 text of bytes (a signature, an instruction payload).
pub fn encode_base64(bytes: &[u8]) -> (r: String)
    ensures
        r@ == base64_text(bytes@),
        base64_bytes(r@) == Some(bytes@),
        bytes@.len() > 0 ==> r@.len() > 0,
{
    b64_encode(bytes)
}

/// Whether two addresses are the same bytes.
pub fn same_address(a: &[u8; 32], b: &[u8; 32]) -> (r: bool)
    ensures
        r == (a@ == b@),
{
    let mut i: usize = 0;
    while i < 32
        invariant
            i <= 32,
            forall|j: int| 0 <= j < i ==> a@[j] == b@[j],
        decreases 32 - i,
    {
        if a[i] != b[i] {
            return false;
        }
        i = i + 1;
    }
    assert(a@ =~= b@);
    true
}

} // verus!
