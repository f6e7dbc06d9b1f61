//! Token transfers between the associated token accounts of two wallets:
//! validation, derivation of both accounts, then the token program's
//! transfer instruction, shown as text.
use vstd::prelude::*;
use crate::address::{address_bytes, address_text, base64_text, decode_address, encode_base64, pubkey_text};
use crate::error::{error_is, ErrorKind};
use crate::instruction::{
    associated_address, associated_token_address, metas_view, token_move_accounts, token_program_id,
    token_transfer, token_transfer_data, AccountMeta,
};
pub use crate::error::ErrorResponse;

verus! {

/// A request to move `amount` of `mint` from `owner` to `destination`, both
/// wallets.
#[derive(Clone, Debug)]
pub struct SendTokenRequest {
    pub destination: String,
    pub mint: String,
    pub owner: String,
    pub amount: u64,
}

/// A built token transfer: `success` is true.
#[derive(Clone, Debug)]
pub struct SendTokenResponse {
    pub success: bool,
    pub data: SendTokenData,
}

/// An instruction as text: program address, accounts, base-64 payload.
#[derive(Clone, Debug)]
pub struct SendTokenData {
    pub program_id: String,
    pub accounts: Vec<AccountInfo>,
    pub instruction_data: String,
}

/// One account reference as text, with its signer flag.
#[derive(Clone, Debug)]
pub struct AccountInfo {
    pub pubkey: String,
    pub is_signer: bool,
}

/// A token transfer, or why there is none.
#[derive(Clone, Debug)]
pub enum ApiResponse {
    Success(SendTokenResponse),
    Error(ErrorResponse),
}

/// An account row as a pair: address text, signer.
pub open spec fn info_view(a: AccountInfo) -> (Seq<char>, bool) {
    (a.pubkey@, a.is_signer)
}

/// Account references as pairs of address text and signer flag.
pub open spec fn shown_signers(metas: Seq<(Seq<u8>, bool, bool)>) -> Seq<(Seq<char>, bool)> {
    metas.map_values(|m: (Seq<u8>, bool, bool)| (address_text(m.0), m.1))
}

/// The account references of an instruction written as rows, in order.
pub fn account_infos(accounts: &Vec<AccountMeta>) -> (r: Vec<AccountInfo>)
    ensures
        r@.map_values(|a: AccountInfo| info_view(a)) == shown_signers(metas_view(accounts@)),
{
    let mut out: Vec<AccountInfo> = Vec::new();
    let mut i: usize = 0;
    while i < accounts.len()
        invariant
            i <= accounts@.len(),
            out@.len() == i,
            forall|j: int| 0 <= j < i ==> #[trigger] info_view(out@[j]) == (
                address_text(accounts@[j].pubkey@),
                accounts@[j].is_signer,
            ),
        decreases accounts@.len() - i,
    {
        let a = accounts[i];
        out.push(AccountInfo { pubkey: pubkey_text(&a.pubkey), is_signer: a.is_signer });
        i = i + 1;
    }
    assert(out@.map_values(|a: AccountInfo| info_view(a)) =~= shown_signers(metas_view(accounts@)));
    out
}

/// Why a token transfer request is refused, in the order the checks are
/// made; `None` where the instruction is built.
pub open spec fn send_token_rejection(destination: Seq<char>, mint: Seq<char>, owner: Seq<char>, amount: u64) -> Option<(ErrorKind, Seq<char>)> {
    if destination.len() == 0 || mint.len() == 0 || owner.len() == 0 {
        Some((ErrorKind::MissingField, "Missing required fields"@))
    } else if amount == 0 {
        Some((ErrorKind::InvalidRange, "Amount must be greater than zero"@))
    } else if address_bytes(destination) is None {
        Some((ErrorKind::InvalidEncoding, "Invalid destination address"@))
    } else if address_bytes(mint) is None {
        Some((ErrorKind::InvalidEncoding, "Invalid mint address"@))
    } else if address_bytes(owner) is None {
        Some((ErrorKind::InvalidEncoding, "Invalid owner address"@))
    } else {
        None
    }
}

/// Builds the token program's transfer from the owner's associated token
/// account for the mint to the destination wallet's one, signed by the
/// owner; payload opcode 3 and the amount. Empty fields, a zero amount and
/// addresses that do not parse are refused.
pub fn send_token(payload: SendTokenRequest) -> (r: ApiResponse)
    ensures
        match send_token_rejection(payload.destination@, payload.mint@, payload.owner@, payload.amount) {
            Some(e) => r matches ApiResponse::Error(err) && error_is(err, e),
            None => r matches ApiResponse::Success(ok) && ok.success && {
                let destination = address_bytes(payload.destination@)->Some_0;
                let mint = address_bytes(payload.mint@)->Some_0;
                let owner = address_bytes(payload.owner@)->Some_0;
                let source = associated_address(owner, mint);
                let target = associated_address(destination, mint);
                &&& ok.data.program_id@ == address_text(token_program_id())
                &&& ok.data.accounts@.map_values(|a: AccountInfo| info_view(a))
                    == shown_signers(token_move_accounts(source, target, owner))
                &&& ok.data.instruction_data@ == base64_text(token_transfer_data(payload.amount))
            },
        },
{
    if payload.destination.as_str().is_empty() || payload.mint.as_str().is_empty()
        || payload.owner.as_str().is_empty() {
        return ApiResponse::Error(ErrorResponse::new(ErrorKind::MissingField, "Missing required fields"));
    }
    if payload.amount == 0 {
        return ApiResponse::Error(ErrorResponse::new(ErrorKind::InvalidRange, "Amount must be greater than zero"));
    }
    let destination = match decode_address(payload.destination.as_str()) {
        Some(k) => k,
        None => return ApiResponse::Error(
            ErrorResponse::new(ErrorKind::InvalidEncoding, "Invalid destination address"),
        ),
    };
    let mint = match decode_address(payload.mint.as_str()) {
        Some(k) => k,
        None => return ApiResponse::Error(ErrorResponse::new(ErrorKind::InvalidEncoding, "Invalid mint address")),
    };
    let owner = match decode_address(payload.owner.as_str()) {
        Some(k) => k,
        None => return ApiResponse::Error(ErrorResponse::new(ErrorKind::InvalidEncoding, "Invalid owner address")),
    };
    let source = associated_token_address(&owner, &mint);
    let target = associated_token_address(&destination, &mint);
    let ix = match token_transfer(&source, &target, &owner, payload.amount) {
        Ok(ix) => ix,
        Err(_) => return ApiResponse::Error(
            ErrorResponse::new(ErrorKind::ConstructionFailure, "Failed to create token transfer instruction"),
        ),
    };
    let data = SendTokenData {
        program_id: pubkey_text(&ix.program_id),
        accounts: account_infos(&ix.accounts),
        instruction_data: encode_base64(ix.data.as_slice()),
    };
    ApiResponse::Success(SendTokenResponse { success: true, data })
}

/// Once the three fields are present, a token transfer refuses a zero
/// amount as out of range; every other amount, 1 and `u64::MAX` among them,
/// passes the range check, and with three valid addresses the instruction is
/// built.
pub proof fn lemma_token_amount_range(destination: Seq<char>, mint: Seq<char>, owner: Seq<char>, amount: u64)
    requires
        destination.len() > 0,
        mint.len() > 0,
        owner.len() > 0,
    ensures
        amount == 0 ==> send_token_rejection(destination, mint, owner, amount)
            == Some((ErrorKind::InvalidRange, "Amount must be greater than zero"@)),
        amount >= 1 ==> !(send_token_rejection(destination, mint, owner, amount) matches Some(e)
            && e.0 == ErrorKind::InvalidRange),
        amount >= 1 && address_bytes(destination) is Some && address_bytes(mint) is Some
            && address_bytes(owner) is Some ==> send_token_rejection(destination, mint, owner, amount) is None,
{
}

} // verus!
