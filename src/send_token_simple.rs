//! The simplified token transfer: the three addresses are validated and
//! echoed with illustrative signer flags, and the payload is the fixed
//! placeholder bytes 1, 2, 3, 4. It derives no token account; `send_token`
//! of the sibling module builds the real instruction.
use vstd::prelude::*;
use crate::address::{base64_text, decode_address, encode_base64};
use crate::error::{rejected_with, ErrorKind};
pub use crate::error::ErrorResponse;
pub use crate::send_token::{AccountInfo, SendTokenData, SendTokenRequest, SendTokenResponse};
use crate::send_token::{info_view, send_token_rejection};

verus! {

/// The token program's address as text.
pub const TOKEN_PROGRAM_ADDRESS: &'static str = "TokenkegQfeZyiNwAJbNbGKPFXCWuBvf9Ss623VQ5DA";

/// The placeholder payload.
pub open spec fn placeholder_data() -> Seq<u8> {
    seq![1u8, 2, 3, 4]
}

/// Validates a token transfer request as `send_token` does, then returns the
/// mint, the destination and the owner as given, only the owner signing,
/// with the placeholder payload.
pub fn send_token(payload: SendTokenRequest) -> (r: Result<SendTokenResponse, ErrorResponse>)
    ensures
        match send_token_rejection(payload.destination@, payload.mint@, payload.owner@, payload.amount) {
            Some(e) => rejected_with(r, e),
            None => r matches Ok(ok) && ok.success && {
                &&& ok.data.program_id@ == TOKEN_PROGRAM_ADDRESS@
                &&& ok.data.accounts@.map_values(|a: AccountInfo| info_view(a)) == seq![
                    (payload.mint@, false),
                    (payload.destination@, false),
                    (payload.owner@, true),
                ]
                &&& ok.data.instruction_data@ == base64_text(placeholder_data())
            },
        },
{
    if payload.destination.as_str().is_empty() || payload.mint.as_str().is_empty()
        || payload.owner.as_str().is_empty() {
        return Err(ErrorResponse::new(ErrorKind::MissingField, "Missing required fields"));
    }
    if payload.amount == 0 {
        return Err(ErrorResponse::new(ErrorKind::InvalidRange, "Amount must be greater than zero"));
    }
    if decode_address(payload.destination.as_str()).is_none() {
        return Err(ErrorResponse::new(ErrorKind::InvalidEncoding, "Invalid destination address"));
    }
    if decode_address(payload.mint.as_str()).is_none() {
        return Err(ErrorResponse::new(ErrorKind::InvalidEncoding, "Invalid mint address"));
    }
    if decode_address(payload.owner.as_str()).is_none() {
        return Err(ErrorResponse::new(ErrorKind::InvalidEncoding, "Invalid owner address"));
    }
    let mut accounts: Vec<AccountInfo> = Vec::new();
    accounts.push(AccountInfo { pubkey: payload.mint, is_signer: false });
    accounts.push(AccountInfo { pubkey: payload.destination, is_signer: false });
    accounts.push(AccountInfo { pubkey: payload.owner, is_signer: true });
    let placeholder: [u8; 4] = [1u8, 2, 3, 4];
    assert(placeholder@ =~= placeholder_data());
    let data = SendTokenData {
        program_id: TOKEN_PROGRAM_ADDRESS.to_owned(),
        accounts,
        instruction_data: encode_base64(&placeholder),
    };
    assert(data.accounts@.map_values(|a: AccountInfo| info_view(a)) =~= seq![
        (payload.mint@, false),
        (payload.destination@, false),
        (payload.owner@, true),
    ]);
    Ok(SendTokenResponse { success: true, data })
}

} // verus!
