//! Minting tokens to a destination account: validation, then the token
//! program's mint-to instruction, shown as text.
use vstd::prelude::*;
use crate::address::{address_bytes, address_text, base64_text, decode_address, encode_base64, pubkey_text};
use crate::error::{rejected_with, ErrorKind};
use crate::instruction::{mint_to_data, token_mint_to, token_move_accounts, token_program_id};
pub use crate::error::ErrorResponse;
pub use crate::spl_token::AccountData;
use crate::spl_token::{account_rows, rows_view, shown_accounts};

verus! {

/// A request to mint `amount` of `mint` to `destination`, signed by `authority`.
#[derive(Clone, Debug)]
pub struct MintTokenRequest {
    pub mint: String,
    pub destination: String,
    pub authority: String,
    pub amount: i64,
}

/// A built mint-to instruction: `success` is true.
#[derive(Clone, Debug)]
pub struct MintTokenResponse {
    pub success: bool,
    pub data: MintTokenData,
}

/// An instruction as text: program address, accounts, base-64 payload.
#[derive(Clone, Debug)]
pub struct MintTokenData {
    pub program_id: String,
    pub accounts: Vec<AccountData>,
    pub instruction_data: String,
}

/// Why a mint-to request is refused, in the order the checks are made;
/// `None` where the instruction is built.
pub open spec fn mint_token_rejection(mint: Seq<char>, destination: Seq<char>, authority: Seq<char>, amount: i64) -> Option<(ErrorKind, Seq<char>)> {
    if mint.len() == 0 || destination.len() == 0 || authority.len() == 0 {
        Some((ErrorKind::MissingField, "Missing required fields"@))
    } else if amount <= 0 {
        Some((ErrorKind::InvalidRange, "Amount must be greater than zero"@))
    } else if address_bytes(mint) is None {
        Some((ErrorKind::InvalidEncoding, "Invalid mint address"@))
    } else if address_bytes(destination) is None {
        Some((ErrorKind::InvalidEncoding, "Invalid destination address"@))
    } else if address_bytes(authority) is None {
        Some((ErrorKind::InvalidEncoding, "Invalid authority address"@))
    } else {
        None
    }
}

/// Builds the token program's mint-to instruction: mint and destination
/// writable, authority signing, payload opcode 7 and the amount as eight
/// little-endian bytes. Empty fields, an amount that is not positive and
/// addresses that do not parse are refused.
pub fn mint_token(payload: MintTokenRequest) -> (r: Result<MintTokenResponse, ErrorResponse>)
    ensures
        match mint_token_rejection(payload.mint@, payload.destination@, payload.authority@, payload.amount) {
            Some(e) => rejected_with(r, e),
            None => r matches Ok(ok) && ok.success && {
                let mint = address_bytes(payload.mint@)->Some_0;
                let destination = address_bytes(payload.destination@)->Some_0;
                let authority = address_bytes(payload.authority@)->Some_0;
                &&& ok.data.program_id@ == address_text(token_program_id())
                &&& rows_view(ok.data.accounts@) == shown_accounts(token_move_accounts(mint, destination, authority))
                &&& ok.data.instruction_data@ == base64_text(mint_to_data(payload.amount as u64))
            },
        },
{
    if payload.mint.as_str().is_empty() || payload.destination.as_str().is_empty()
        || payload.authority.as_str().is_empty() {
        return Err(ErrorResponse::new(ErrorKind::MissingField, "Missing required fields"));
    }
    if payload.amount <= 0 {
        return Err(ErrorResponse::new(ErrorKind::InvalidRange, "Amount must be greater than zero"));
    }
    let mint = match decode_address(payload.mint.as_str()) {
        Some(k) => k,
        None => return Err(ErrorResponse::new(ErrorKind::InvalidEncoding, "Invalid mint address")),
    };
    let destination = match decode_address(payload.destination.as_str()) {
        Some(k) => k,
        None => return Err(ErrorResponse::new(ErrorKind::InvalidEncoding, "Invalid destination address")),
    };
    let authority = match decode_address(payload.authority.as_str()) {
        Some(k) => k,
        None => return Err(ErrorResponse::new(ErrorKind::InvalidEncoding, "Invalid authority address")),
    };
    let ix = match token_mint_to(&mint, &destination, &authority, payload.amount as u64) {
        Ok(ix) => ix,
        Err(_) => return Err(ErrorResponse::new(ErrorKind::ConstructionFailure, "Failed to create mint instruction")),
    };
    let data = MintTokenData {
        program_id: pubkey_text(&ix.program_id),
        accounts: account_rows(&ix.accounts),
        instruction_data: encode_base64(ix.data.as_slice()),
    };
    Ok(MintTokenResponse { success: true, data })
}

/// Once the three fields are present, mint-to refuses a zero or negative
/// amount as out of range; every positive amount, 1 and `i64::MAX` among
/// them, passes the range check, and with three valid addresses the
/// instruction is built.
pub proof fn lemma_mint_amount_range(mint: Seq<char>, destination: Seq<char>, authority: Seq<char>, amount: i64)
    requires
        mint.len() > 0,
        destination.len() > 0,
        authority.len() > 0,
    ensures
        amount <= 0 ==> mint_token_rejection(mint, destination, authority, amount)
            == Some((ErrorKind::InvalidRange, "Amount must be greater than zero"@)),
        amount >= 1 ==> !(mint_token_rejection(mint, destination, authority, amount) matches Some(e)
            && e.0 == ErrorKind::InvalidRange),
        amount >= 1 && address_bytes(mint) is Some && address_bytes(destination) is Some
            && address_bytes(authority) is Some ==> mint_token_rejection(mint, destination, authority, amount) is None,
{
}

} // verus!
