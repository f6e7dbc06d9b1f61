//! Token mint initialization: validation, then the token program's
//! initialize-mint instruction, shown as text.
use vstd::prelude::*;
use crate::address::{address_bytes, address_text, base64_text, decode_address, encode_base64, pubkey_text};
use crate::error::{rejected_with, ErrorKind};
use crate::instruction::{
    initialize_mint_accounts, initialize_mint_data, meta_view, metas_view, token_initialize_mint,
    token_program_id, AccountMeta,
};
pub use crate::error::ErrorResponse;

verus! {

/// A request to initialize `mint` with `mint_authority` and `decimals`.
#[derive(Clone, Debug)]
pub struct InitializeMint {
    pub mint_authority: String,
    pub mint: String,
    pub decimals: i32,
}

/// An instruction as text: program address, accounts, base-64 payload.
#[derive(Clone, Debug)]
pub struct MintData {
    pub program_id: String,
    pub accounts: Vec<AccountData>,
    pub instruction_data: String,
}

/// A built initialize-mint instruction: `success` is true.
#[derive(Clone, Debug)]
pub struct MintResponse {
    pub success: bool,
    pub data: MintData,
}

/// One account reference as text, with its flags.
#[derive(Clone, Debug)]
pub struct AccountData {
    pub pubkey: String,
    pub is_signer: bool,
    pub is_writable: bool,
}

/// An account row as a triple: address text, signer, writable.
pub open spec fn row_view(a: AccountData) -> (Seq<char>, bool, bool) {
    (a.pubkey@, a.is_signer, a.is_writable)
}

/// Account rows as triples, in order.
pub open spec fn rows_view(rows: Seq<AccountData>) -> Seq<(Seq<char>, bool, bool)> {
    rows.map_values(|a: AccountData| row_view(a))
}

/// Account references with each address written as text.
pub open spec fn shown_accounts(metas: Seq<(Seq<u8>, bool, bool)>) -> Seq<(Seq<char>, bool, bool)> {
    metas.map_values(|m: (Seq<u8>, bool, bool)| (address_text(m.0), m.1, m.2))
}

/// The account references of an instruction written as rows, in order.
pub fn account_rows(accounts: &Vec<AccountMeta>) -> (r: Vec<AccountData>)
    ensures
        rows_view(r@) == shown_accounts(metas_view(accounts@)),
{
    let mut rows: Vec<AccountData> = Vec::new();
    let mut i: usize = 0;
    while i < accounts.len()
        invariant
            i <= accounts@.len(),
            rows@.len() == i,
            forall|j: int| 0 <= j < i ==> #[trigger] row_view(rows@[j]) == (
                address_text(accounts@[j].pubkey@),
                accounts@[j].is_signer,
                accounts@[j].is_writable,
            ),
        decreases accounts@.len() - i,
    {
        let a = accounts[i];
        rows.push(AccountData { pubkey: pubkey_text(&a.pubkey), is_signer: a.is_signer, is_writable: a.is_writable });
        i = i + 1;
    }
    assert(rows_view(rows@) =~= shown_accounts(metas_view(accounts@))) by {
        assert forall|j: int| 0 <= j < rows@.len() implies
            rows_view(rows@)[j] == shown_accounts(metas_view(accounts@))[j] by {
            assert(row_view(rows@[j]) == (address_text(accounts@[j].pubkey@), accounts@[j].is_signer, accounts@[j].is_writable));
            assert(meta_view(accounts@[j]) == (accounts@[j].pubkey@, accounts@[j].is_signer, accounts@[j].is_writable));
        }
    }
    rows
}

/// Why an initialize-mint request is refused, in the order the checks are
/// made; `None` where the instruction is built.
pub open spec fn initialize_mint_rejection(mint_authority: Seq<char>, mint: Seq<char>, decimals: i32) -> Option<(ErrorKind, Seq<char>)> {
    if mint_authority.len() == 0 || mint.len() == 0 {
        Some((ErrorKind::MissingField, "Missing required fields"@))
    } else if decimals < 0 || decimals > 9 {
        Some((ErrorKind::InvalidRange, "Decimals must be between 0 and 9"@))
    } else if address_bytes(mint_authority) is None {
        Some((ErrorKind::InvalidEncoding, "Invalid mint authority public key"@))
    } else if address_bytes(mint) is None {
        Some((ErrorKind::InvalidEncoding, "Invalid mint public key"@))
    } else {
        None
    }
}

/// Builds the token program's initialize-mint instruction for a mint, its
/// authority and 0 to 9 decimals, with no freeze authority. Empty fields,
/// decimals out of range and addresses that do not parse are refused.
pub fn spl_token_initialize_mint_instruction(payload: InitializeMint) -> (r: Result<MintResponse, ErrorResponse>)
    ensures
        match initialize_mint_rejection(payload.mint_authority@, payload.mint@, payload.decimals) {
            Some(e) => rejected_with(r, e),
            None => r matches Ok(ok) && ok.success && {
                let mint = address_bytes(payload.mint@)->Some_0;
                let authority = address_bytes(payload.mint_authority@)->Some_0;
                &&& ok.data.program_id@ == address_text(token_program_id())
                &&& rows_view(ok.data.accounts@) == shown_accounts(initialize_mint_accounts(mint))
                &&& ok.data.instruction_data@ == base64_text(initialize_mint_data(authority, payload.decimals as u8))
            },
        },
{
    if payload.mint_authority.as_str().is_empty() || payload.mint.as_str().is_empty() {
        return Err(ErrorResponse::new(ErrorKind::MissingField, "Missing required fields"));
    }
    if payload.decimals < 0 || payload.decimals > 9 {
        return Err(ErrorResponse::new(ErrorKind::InvalidRange, "Decimals must be between 0 and 9"));
    }
    let authority = match decode_address(payload.mint_authority.as_str()) {
        Some(k) => k,
        None => return Err(ErrorResponse::new(ErrorKind::InvalidEncoding, "Invalid mint authority public key")),
    };
    let mint = match decode_address(payload.mint.as_str()) {
        Some(k) => k,
        None => return Err(ErrorResponse::new(ErrorKind::InvalidEncoding, "Invalid mint public key")),
    };
    let ix = match token_initialize_mint(&mint, &authority, payload.decimals as u8) {
        Ok(ix) => ix,
        Err(_) => return Err(ErrorResponse::new(ErrorKind::ConstructionFailure, "Failed to create mint instruction")),
    };
    let data = MintData {
        program_id: pubkey_text(&ix.program_id),
        accounts: account_rows(&ix.accounts),
        instruction_data: encode_base64(ix.data.as_slice()),
    };
    Ok(MintResponse { success: true, data })
}

/// Once both fields are present, initialize-mint refuses decimals below 0 or
/// above 9 (-1 and 10 among them) as out of range; 0 to 9 pass the range
/// check, and with two valid addresses the instruction is built.
pub proof fn lemma_decimals_range(mint_authority: Seq<char>, mint: Seq<char>, decimals: i32)
    requires
        mint_authority.len() > 0,
        mint.len() > 0,
    ensures
        decimals < 0 || decimals > 9 ==> initialize_mint_rejection(mint_authority, mint, decimals)
            == Some((ErrorKind::InvalidRange, "Decimals must be between 0 and 9"@)),
        0 <= decimals <= 9 ==> !(initialize_mint_rejection(mint_authority, mint, decimals) matches Some(e)
            && e.0 == ErrorKind::InvalidRange),
        0 <= decimals <= 9 && address_bytes(mint_authority) is Some && address_bytes(mint) is Some
            ==> initialize_mint_rejection(mint_authority, mint, decimals) is None,
{
}

} // verus!
