use solkit::address::{decode_address, decode_secret, decode_signature, encode_base64};
use solkit::error::ErrorKind;
use solkit::keypair::{get_keypair, keypair_response, public_key_of, ApiResponse};
use solkit::message::{
    sign_message, signed_message, verify_message, SignApiResponse, SignMessageRequest,
    VerifyApiResponse, VerifyMessageRequest,
};

const SECRET: &str = "2Ana1pUpv2ZbMVkwF5FXapYeBEjdxDatLn7nvJkhgTSdZd8hbDHTd21as7EAsg7ypityqfsw2pMQKJcVDVcAEsd";
const PUBKEY: &str = "9C6hybhQ6Aycep9jaUnP6uL9ZYvDjUp1aSkFWPUFJtpj";
const HELLO_SIG: &str = "aXDa1WTZQN+QF6IkMbwtUvrgtWzge4YPvjgZ/nEoZTzLTObAWu8BQehLFCjMYon9bh1aCUHiAF9N/lNM27GZDg==";

fn sign(message: &str, secret: &str) -> SignApiResponse {
    sign_message(SignMessageRequest { message: message.to_string(), secret: secret.to_string() })
}

fn verify(message: &str, signature: &str, pubkey: &str) -> VerifyApiResponse {
    verify_message(VerifyMessageRequest {
        message: message.to_string(),
        signature: signature.to_string(),
        pubkey: pubkey.to_string(),
    })
}

fn sign_error(r: SignApiResponse) -> (ErrorKind, String) {
    match r {
        SignApiResponse::Error(e) => {
            assert!(!e.success);
            (e.kind, e.error)
        }
        SignApiResponse::Success(_) => panic!("expected an error"),
    }
}

fn verify_error(r: VerifyApiResponse) -> (ErrorKind, String) {
    match r {
        VerifyApiResponse::Error(e) => {
            assert!(!e.success);
            (e.kind, e.error)
        }
        VerifyApiResponse::Success(_) => panic!("expected an error"),
    }
}

fn valid(r: VerifyApiResponse) -> bool {
    match r {
        VerifyApiResponse::Success(ok) => {
            assert!(ok.success);
            ok.data.valid
        }
        VerifyApiResponse::Error(e) => panic!("unexpected error {}", e.error),
    }
}

#[test]
fn sign_hello_gives_known_signature() {
    match sign("hello", SECRET) {
        SignApiResponse::Success(ok) => {
            assert!(ok.success);
            assert_eq!(ok.data.signature, HELLO_SIG);
            assert_eq!(ok.data.public_key, PUBKEY);
            assert_eq!(ok.data.message, "hello");
            assert!(decode_signature(&ok.data.signature).is_some());
            assert!(valid(verify("hello", &ok.data.signature, &ok.data.public_key)));
        }
        SignApiResponse::Error(e) => panic!("unexpected error {}", e.error),
    }
}

#[test]
fn generated_keypairs_sign_and_verify() {
    for message in ["hello", "a", "ünïcödé text", "a much longer message with spaces and digits 0123456789"] {
        let kp = match get_keypair() {
            ApiResponse::Success(ok) => ok.data,
            ApiResponse::Error(e) => panic!("unexpected error {}", e.error),
        };
        let bytes = decode_secret(&kp.secret).unwrap();
        assert_eq!(decode_address(&kp.pubkey).unwrap(), public_key_of(&bytes));
        match sign(message, &kp.secret) {
            SignApiResponse::Success(ok) => {
                assert_eq!(ok.data.public_key, kp.pubkey);
                assert!(valid(verify(message, &ok.data.signature, &kp.pubkey)));
                assert!(!valid(verify("other", &ok.data.signature, &kp.pubkey)));
            }
            SignApiResponse::Error(e) => panic!("unexpected error {}", e.error),
        }
    }
}

#[test]
fn flipping_any_bit_breaks_the_signature() {
    let sig = decode_signature(HELLO_SIG).unwrap();
    for byte in 0..64 {
        for bit in 0..8 {
            let mut s = sig;
            s[byte] ^= 1u8 << bit;
            assert!(!valid(verify("hello", &encode_base64(&s), PUBKEY)), "byte {} bit {}", byte, bit);
        }
    }
}

#[test]
fn keypair_response_shows_the_bytes() {
    let bytes = decode_secret(SECRET).unwrap();
    let r = keypair_response(&bytes);
    assert!(r.success);
    assert_eq!(r.data.pubkey, PUBKEY);
    assert_eq!(r.data.secret, SECRET);
}

#[test]
fn signed_message_matches_sign_message() {
    let bytes = decode_secret(SECRET).unwrap();
    let d = signed_message(&bytes, "hello".to_string());
    assert_eq!(d.signature, HELLO_SIG);
    assert_eq!(d.public_key, PUBKEY);
}

#[test]
fn sign_refuses_missing_fields() {
    let missing = (ErrorKind::MissingField, "Missing required fields".to_string());
    assert_eq!(sign_error(sign("", SECRET)), missing);
    assert_eq!(sign_error(sign("hello", "")), missing);
}

#[test]
fn sign_refuses_bad_secrets() {
    let bad = (ErrorKind::InvalidEncoding, "Invalid secret key format".to_string());
    // shorter than 32 bytes of text
    assert_eq!(sign_error(sign("hello", "abc")), bad);
    // base-58 of 32 bytes
    assert_eq!(sign_error(sign("hello", "4wBqpZM9xaSheZzJSMawUKKwhdpChKbZ5eu5ky4Vigw")), bad);
    // not base-58
    assert_eq!(sign_error(sign("hello", "0000000000000000000000000000000000000000")), bad);
    // 64 bytes whose public half is not derived from the seed
    let mismatched = "2Ana1pUpv2ZbMVkwF5FXapYeBEjdxDatLn7nvJkhgTSVNXRizWtNT3Pw3xVbPtjsvPkRHkfCZ1LpsZMyq2MrM3u";
    assert_eq!(sign_error(sign("hello", mismatched)), bad);
}

#[test]
fn verify_refuses_missing_fields() {
    let missing = (ErrorKind::MissingField, "Missing required fields".to_string());
    assert_eq!(verify_error(verify("", HELLO_SIG, PUBKEY)), missing);
    assert_eq!(verify_error(verify("hello", "", PUBKEY)), missing);
    assert_eq!(verify_error(verify("hello", HELLO_SIG, "")), missing);
}

#[test]
fn verify_refuses_malformed_signature() {
    let r = verify_error(verify("hello", "not-base64!!", PUBKEY));
    assert_eq!(r, (ErrorKind::InvalidEncoding, "Invalid signature format".to_string()));
    let short = verify_error(verify("hello", "AQIDBA==", PUBKEY));
    assert_eq!(short, (ErrorKind::InvalidEncoding, "Invalid signature format".to_string()));
}

#[test]
fn verify_refuses_malformed_pubkey() {
    let r = verify_error(verify("hello", HELLO_SIG, "not a key"));
    assert_eq!(r, (ErrorKind::InvalidEncoding, "Invalid public key format".to_string()));
}

#[test]
fn verify_echoes_message_and_pubkey() {
    match verify("hello", HELLO_SIG, PUBKEY) {
        VerifyApiResponse::Success(ok) => {
            assert!(ok.data.valid);
            assert_eq!(ok.data.message, "hello");
            assert_eq!(ok.data.pubkey, PUBKEY);
        }
        VerifyApiResponse::Error(e) => panic!("unexpected error {}", e.error),
    }
}

#[test]
fn wrong_key_is_invalid_not_an_error() {
    assert!(!valid(verify("hello", HELLO_SIG, "TokenkegQfeZyiNwAJbNbGKPFXCWuBvf9Ss623VQ5DA")));
}
