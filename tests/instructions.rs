use solkit::error::{ErrorKind, ErrorResponse};
use solkit::mint_token::{mint_token, MintTokenRequest};
use solkit::send_sol::{is_valid_lamports, send_sol, SendSolRequest, MAX_LAMPORTS};
use solkit::send_token::{send_token, ApiResponse, SendTokenRequest};
use solkit::send_token_simple;
use solkit::spl_token::{spl_token_initialize_mint_instruction, InitializeMint};

const TOKEN_PROGRAM: &str = "TokenkegQfeZyiNwAJbNbGKPFXCWuBvf9Ss623VQ5DA";
const RENT: &str = "SysvarRent111111111111111111111111111111111";
const SYSTEM: &str = "11111111111111111111111111111111";
const MINT: &str = "So11111111111111111111111111111111111111112";
const AUTHORITY: &str = "ATokenGPvbdGVxr1b2hvZbsiqW5xWH25efTNsLJA8knL";
const WALLET: &str = "9C6hybhQ6Aycep9jaUnP6uL9ZYvDjUp1aSkFWPUFJtpj";

fn kind_and_text(e: ErrorResponse) -> (ErrorKind, String) {
    assert!(!e.success);
    (e.kind, e.error)
}

fn init(authority: &str, mint: &str, decimals: i32) -> Result<solkit::spl_token::MintResponse, ErrorResponse> {
    spl_token_initialize_mint_instruction(InitializeMint {
        mint_authority: authority.to_string(),
        mint: mint.to_string(),
        decimals,
    })
}

fn mint_to(amount: i64) -> Result<solkit::mint_token::MintTokenResponse, ErrorResponse> {
    mint_token(MintTokenRequest {
        mint: MINT.to_string(),
        destination: WALLET.to_string(),
        authority: AUTHORITY.to_string(),
        amount,
    })
}

fn transfer(from: &str, to: &str, lamports: u64) -> Result<solkit::send_sol::SendSolResponse, ErrorResponse> {
    send_sol(SendSolRequest { from: from.to_string(), to: to.to_string(), lamports })
}

fn token_request(destination: &str, mint: &str, owner: &str, amount: u64) -> SendTokenRequest {
    SendTokenRequest {
        destination: destination.to_string(),
        mint: mint.to_string(),
        owner: owner.to_string(),
        amount,
    }
}

#[test]
fn initialize_mint_with_nine_decimals() {
    let r = init(AUTHORITY, MINT, 9).unwrap();
    assert!(r.success);
    assert_eq!(r.data.program_id, TOKEN_PROGRAM);
    assert_eq!(r.data.accounts.len(), 2);
    assert_eq!(r.data.accounts[0].pubkey, MINT);
    assert!(!r.data.accounts[0].is_signer);
    assert!(r.data.accounts[0].is_writable);
    assert_eq!(r.data.accounts[1].pubkey, RENT);
    assert!(!r.data.accounts[1].is_signer);
    assert!(!r.data.accounts[1].is_writable);
    assert_eq!(r.data.instruction_data, "AAmMlyWPTiSJ8bs9ECkUjg2DC1oTmdr/EIQEjnvY2+n4WQA=");
}

#[test]
fn initialize_mint_decimal_bounds() {
    let range = (ErrorKind::InvalidRange, "Decimals must be between 0 and 9".to_string());
    assert_eq!(kind_and_text(init(AUTHORITY, MINT, -1).err().unwrap()), range);
    assert_eq!(kind_and_text(init(AUTHORITY, MINT, 10).err().unwrap()), range);
    assert_eq!(kind_and_text(init(AUTHORITY, MINT, i32::MIN).err().unwrap()), range);
    let zero = init(AUTHORITY, MINT, 0).unwrap();
    assert_eq!(zero.data.instruction_data, "AACMlyWPTiSJ8bs9ECkUjg2DC1oTmdr/EIQEjnvY2+n4WQA=");
    assert!(init(AUTHORITY, MINT, 9).is_ok());
}

#[test]
fn initialize_mint_refuses_bad_fields() {
    let missing = (ErrorKind::MissingField, "Missing required fields".to_string());
    assert_eq!(kind_and_text(init("", MINT, 6).err().unwrap()), missing);
    assert_eq!(kind_and_text(init(AUTHORITY, "", 6).err().unwrap()), missing);
    assert_eq!(
        kind_and_text(init("bad", MINT, 6).err().unwrap()),
        (ErrorKind::InvalidEncoding, "Invalid mint authority public key".to_string())
    );
    assert_eq!(
        kind_and_text(init(AUTHORITY, "bad", 6).err().unwrap()),
        (ErrorKind::InvalidEncoding, "Invalid mint public key".to_string())
    );
    // the range is checked before the addresses
    assert_eq!(kind_and_text(init("bad", "bad", 12).err().unwrap()).0, ErrorKind::InvalidRange);
}

#[test]
fn mint_to_layout() {
    let r = mint_to(1000).unwrap();
    assert!(r.success);
    assert_eq!(r.data.program_id, TOKEN_PROGRAM);
    let rows: Vec<(String, bool, bool)> =
        r.data.accounts.iter().map(|a| (a.pubkey.clone(), a.is_signer, a.is_writable)).collect();
    assert_eq!(
        rows,
        vec![
            (MINT.to_string(), false, true),
            (WALLET.to_string(), false, true),
            (AUTHORITY.to_string(), true, false),
        ]
    );
    assert_eq!(r.data.instruction_data, "B+gDAAAAAAAA");
}

#[test]
fn mint_to_amount_bounds() {
    let range = (ErrorKind::InvalidRange, "Amount must be greater than zero".to_string());
    assert_eq!(kind_and_text(mint_to(0).err().unwrap()), range);
    assert_eq!(kind_and_text(mint_to(-1).err().unwrap()), range);
    assert_eq!(kind_and_text(mint_to(i64::MIN).err().unwrap()), range);
    assert_eq!(mint_to(1).unwrap().data.instruction_data, "BwEAAAAAAAAA");
    assert_eq!(mint_to(i64::MAX).unwrap().data.instruction_data, "B/////////9/");
}

#[test]
fn mint_to_refuses_bad_fields() {
    let r = mint_token(MintTokenRequest {
        mint: MINT.to_string(),
        destination: String::new(),
        authority: AUTHORITY.to_string(),
        amount: 5,
    });
    assert_eq!(kind_and_text(r.err().unwrap()), (ErrorKind::MissingField, "Missing required fields".to_string()));
    for (mint, destination, authority, text) in [
        ("x", WALLET, AUTHORITY, "Invalid mint address"),
        (MINT, "x", AUTHORITY, "Invalid destination address"),
        (MINT, WALLET, "x", "Invalid authority address"),
    ] {
        let r = mint_token(MintTokenRequest {
            mint: mint.to_string(),
            destination: destination.to_string(),
            authority: authority.to_string(),
            amount: 5,
        });
        assert_eq!(kind_and_text(r.err().unwrap()), (ErrorKind::InvalidEncoding, text.to_string()));
    }
}

#[test]
fn lamports_bounds() {
    assert!(!is_valid_lamports(0));
    assert!(is_valid_lamports(1));
    assert!(is_valid_lamports(MAX_LAMPORTS));
    assert!(!is_valid_lamports(MAX_LAMPORTS + 1));
    assert!(!is_valid_lamports(u64::MAX));
    assert_eq!(MAX_LAMPORTS, 1_000_000_000_000_000);
}

#[test]
fn native_transfer_layout() {
    let r = transfer(WALLET, AUTHORITY, 1000).unwrap();
    assert!(r.success);
    assert_eq!(r.data.program_id, SYSTEM);
    assert_eq!(r.data.accounts, vec![WALLET.to_string(), AUTHORITY.to_string()]);
    assert_eq!(r.data.instruction_data, "AgAAAOgDAAAAAAAA");
    assert_eq!(transfer(WALLET, AUTHORITY, MAX_LAMPORTS).unwrap().data.instruction_data, "AgAAAACAxqR+jQMA");
}

#[test]
fn native_transfer_to_self_is_refused() {
    let r = transfer(WALLET, WALLET, 1000);
    assert_eq!(
        kind_and_text(r.err().unwrap()),
        (ErrorKind::SemanticConflict, "Cannot send SOL to the same address".to_string())
    );
}

#[test]
fn native_transfer_refuses_bad_fields() {
    let range = (ErrorKind::InvalidRange, "Invalid lamports amount".to_string());
    assert_eq!(kind_and_text(transfer(WALLET, AUTHORITY, 0).err().unwrap()), range);
    assert_eq!(kind_and_text(transfer(WALLET, AUTHORITY, u64::MAX).err().unwrap()), range);
    assert_eq!(
        kind_and_text(transfer("", AUTHORITY, 5).err().unwrap()),
        (ErrorKind::MissingField, "Missing required fields".to_string())
    );
    assert_eq!(
        kind_and_text(transfer("nope", AUTHORITY, 5).err().unwrap()),
        (ErrorKind::InvalidEncoding, "Invalid sender address".to_string())
    );
    assert_eq!(
        kind_and_text(transfer(WALLET, "nope", 5).err().unwrap()),
        (ErrorKind::InvalidEncoding, "Invalid recipient address".to_string())
    );
}

#[test]
fn token_transfer_between_associated_accounts() {
    match send_token(token_request(AUTHORITY, MINT, WALLET, 5)) {
        ApiResponse::Success(ok) => {
            assert!(ok.success);
            assert_eq!(ok.data.program_id, TOKEN_PROGRAM);
            assert_eq!(ok.data.accounts.len(), 3);
            let signers: Vec<bool> = ok.data.accounts.iter().map(|a| a.is_signer).collect();
            assert_eq!(signers, vec![false, false, true]);
            assert_eq!(ok.data.accounts[2].pubkey, WALLET);
            // the token accounts are derived, neither wallet nor mint
            for a in &ok.data.accounts[..2] {
                assert!(a.pubkey != WALLET && a.pubkey != AUTHORITY && a.pubkey != MINT);
            }
            assert!(ok.data.accounts[0].pubkey != ok.data.accounts[1].pubkey);
            assert_eq!(ok.data.instruction_data, "AwUAAAAAAAAA");
        }
        ApiResponse::Error(e) => panic!("unexpected error {}", e.error),
    }
    match send_token(token_request(AUTHORITY, MINT, WALLET, u64::MAX)) {
        ApiResponse::Success(ok) => assert_eq!(ok.data.instruction_data, "A///////////"),
        ApiResponse::Error(e) => panic!("unexpected error {}", e.error),
    }
}

#[test]
fn token_transfer_refuses_bad_fields() {
    let cases = [
        (token_request(AUTHORITY, MINT, WALLET, 0), ErrorKind::InvalidRange, "Amount must be greater than zero"),
        (token_request("", MINT, WALLET, 5), ErrorKind::MissingField, "Missing required fields"),
        (token_request("x", MINT, WALLET, 5), ErrorKind::InvalidEncoding, "Invalid destination address"),
        (token_request(AUTHORITY, "x", WALLET, 5), ErrorKind::InvalidEncoding, "Invalid mint address"),
        (token_request(AUTHORITY, MINT, "x", 5), ErrorKind::InvalidEncoding, "Invalid owner address"),
    ];
    for (req, kind, text) in cases {
        match send_token(req) {
            ApiResponse::Error(e) => assert_eq!(kind_and_text(e), (kind, text.to_string())),
            ApiResponse::Success(_) => panic!("expected an error"),
        }
    }
}

#[test]
fn simple_token_transfer_echoes_addresses() {
    let r = send_token_simple::send_token(token_request(AUTHORITY, MINT, WALLET, 1)).unwrap();
    assert!(r.success);
    assert_eq!(r.data.program_id, TOKEN_PROGRAM);
    let rows: Vec<(String, bool)> = r.data.accounts.iter().map(|a| (a.pubkey.clone(), a.is_signer)).collect();
    assert_eq!(
        rows,
        vec![(MINT.to_string(), false), (AUTHORITY.to_string(), false), (WALLET.to_string(), true)]
    );
    assert_eq!(r.data.instruction_data, "AQIDBA==");
    assert!(send_token_simple::send_token(token_request(AUTHORITY, MINT, WALLET, u64::MAX)).is_ok());
}

#[test]
fn simple_token_transfer_refuses_bad_fields() {
    let r = send_token_simple::send_token(token_request(AUTHORITY, MINT, WALLET, 0));
    assert_eq!(
        kind_and_text(r.err().unwrap()),
        (ErrorKind::InvalidRange, "Amount must be greater than zero".to_string())
    );
    let r = send_token_simple::send_token(token_request(AUTHORITY, MINT, "x", 3));
    assert_eq!(
        kind_and_text(r.err().unwrap()),
        (ErrorKind::InvalidEncoding, "Invalid owner address".to_string())
    );
}
