//! Native-currency transfers: validation, then the system program's
//! transfer instruction, shown as text.
use vstd::prelude::*;
use crate::address::{address_bytes, address_text, base64_text, decode_address, encode_base64, pubkey_text, same_address};
use crate::error::{rejected_with, ErrorKind};
use crate::instruction::{
    metas_view, system_program_id, system_transfer, system_transfer_accounts, system_transfer_data,
    AccountMeta,
};
pub use crate::error::ErrorResponse;

verus! {

/// The largest amount, in the smallest unit, that one transfer may move.
pub const MAX_LAMPORTS: u64 = 1_000_000_000_000_000;

/// A request to move `lamports` from `from` to `to`.
#[derive(Clone, Debug)]
pub struct SendSolRequest {
    pub from: String,
    pub to: String,
    pub lamports: u64,
}

/// A built transfer instruction: `success` is true.
#[derive(Clone, Debug)]
pub struct SendSolResponse {
    pub success: bool,
    pub data: SendSolData,
}

/// An instruction as text: program address, account addresses in order,
/// base-64 payload.
#[derive(Clone, Debug)]
pub struct SendSolData {
    pub program_id: String,
    pub accounts: Vec<String>,
    pub instruction_data: String,
}

/// Whether `lamports` is an amount one transfer may move: above zero and at
/// most `MAX_LAMPORTS`.
pub fn is_valid_lamports(lamports: u64) -> (r: bool)
    ensures
        r == (0 < lamports && lamports <= MAX_LAMPORTS),
{
    lamports > 0 && lamports <= MAX_LAMPORTS
}

/// The addresses of account references, as text, in order.
pub open spec fn shown_addresses(metas: Seq<(Seq<u8>, bool, bool)>) -> Seq<Seq<char>> {
    metas.map_values(|m: (Seq<u8>, bool, bool)| address_text(m.0))
}

/// The addresses of an instruction's accounts written as text, in order.
pub fn account_addresses(accounts: &Vec<AccountMeta>) -> (r: Vec<String>)
    ensures
        r@.map_values(|s: String| s@) == shown_addresses(metas_view(accounts@)),
{
    let mut out: Vec<String> = Vec::new();
    let mut i: usize = 0;
    while i < accounts.len()
        invariant
            i <= accounts@.len(),
            out@.len() == i,
            forall|j: int| 0 <= j < i ==> #[trigger] out@[j]@ == address_text(accounts@[j].pubkey@),
        decreases accounts@.len() - i,
    {
        out.push(pubkey_text(&accounts[i].pubkey));
        i = i + 1;
    }
    assert(out@.map_values(|s: String| s@) =~= shown_addresses(metas_view(accounts@)));
    out
}

/// Why a transfer request is refused, in the order the checks are made;
/// `None` where the instruction is built.
pub open spec fn send_sol_rejection(from: Seq<char>, to: Seq<char>, lamports: u64) -> Option<(ErrorKind, Seq<char>)> {
    if from.len() == 0 || to.len() == 0 {
        Some((ErrorKind::MissingField, "Missing required fields"@))
    } else if !(0 < lamports && lamports <= MAX_LAMPORTS) {
        Some((ErrorKind::InvalidRange, "Invalid lamports amount"@))
    } else if address_bytes(from) is None {
        Some((ErrorKind::InvalidEncoding, "Invalid sender address"@))
    } else if address_bytes(to) is None {
        Some((ErrorKind::InvalidEncoding, "Invalid recipient address"@))
    } else if address_bytes(from) == address_bytes(to) {
        Some((ErrorKind::SemanticConflict, "Cannot send SOL to the same address"@))
    } else {
        None
    }
}

/// Builds the system program's transfer instruction: payer a writable
/// signer, recipient writable. Empty fields, an amount outside
/// `1..=MAX_LAMPORTS`, addresses that do not parse, and a transfer to the
/// payer itself are refused.
pub fn send_sol(payload: SendSolRequest) -> (r: Result<SendSolResponse, ErrorResponse>)
    ensures
        match send_sol_rejection(payload.from@, payload.to@, payload.lamports) {
            Some(e) => rejected_with(r, e),
            None => r matches Ok(ok) && ok.success && {
                let from = address_bytes(payload.from@)->Some_0;
                let to = address_bytes(payload.to@)->Some_0;
                &&& ok.data.program_id@ == address_text(system_program_id())
                &&& ok.data.accounts@.map_values(|s: String| s@) == shown_addresses(system_transfer_accounts(from, to))
                &&& ok.data.instruction_data@ == base64_text(system_transfer_data(payload.lamports))
            },
        },
{
    if payload.from.as_str().is_empty() || payload.to.as_str().is_empty() {
        return Err(ErrorResponse::new(ErrorKind::MissingField, "Missing required fields"));
    }
    if !is_valid_lamports(payload.lamports) {
        return Err(ErrorResponse::new(ErrorKind::InvalidRange, "Invalid lamports amount"));
    }
    let from = match decode_address(payload.from.as_str()) {
        Some(k) => k,
        None => return Err(ErrorResponse::new(ErrorKind::InvalidEncoding, "Invalid sender address")),
    };
    let to = match decode_address(payload.to.as_str()) {
        Some(k) => k,
        None => return Err(ErrorResponse::new(ErrorKind::InvalidEncoding, "Invalid recipient address")),
    };
    if same_address(&from, &to) {
        return Err(ErrorResponse::new(ErrorKind::SemanticConflict, "Cannot send SOL to the same address"));
    }
    let ix = system_transfer(&from, &to, payload.lamports);
    let data = SendSolData {
        program_id: pubkey_text(&ix.program_id),
        accounts: account_addresses(&ix.accounts),
        instruction_data: encode_base64(ix.data.as_slice()),
    };
    Ok(SendSolResponse { success: true, data })
}

/// Once both fields are present, a native transfer refuses a zero amount and
/// one above `MAX_LAMPORTS` as out of range; 1 and `MAX_LAMPORTS` pass the
/// range check.
pub proof fn lemma_native_amount_range(from: Seq<char>, to: Seq<char>, lamports: u64)
    requires
        from.len() > 0,
        to.len() > 0,
    ensures
        lamports == 0 || lamports > MAX_LAMPORTS ==> send_sol_rejection(from, to, lamports)
            == Some((ErrorKind::InvalidRange, "Invalid lamports amount"@)),
        1 <= lamports <= MAX_LAMPORTS ==> !(send_sol_rejection(from, to, lamports) matches Some(e)
            && e.0 == ErrorKind::InvalidRange),
{
}

/// A native transfer between two valid addresses with the same bytes (the
/// same text, for one) is refused as a conflict, and between two valid
/// distinct addresses it is built.
pub proof fn lemma_no_transfer_to_self(from: Seq<char>, to: Seq<char>, lamports: u64)
    requires
        from.len() > 0,
        to.len() > 0,
        0 < lamports <= MAX_LAMPORTS,
        address_bytes(from) is Some,
        address_bytes(to) is Some,
    ensures
        address_bytes(from) == address_bytes(to) ==> send_sol_rejection(from, to, lamports)
            == Some((ErrorKind::SemanticConflict, "Cannot send SOL to the same address"@)),
        from == to ==> send_sol_rejection(from, to, lamports)
            == Some((ErrorKind::SemanticConflict, "Cannot send SOL to the same address"@)),
        address_bytes(from) != address_bytes(to) ==> send_sol_rejection(from, to, lamports) is None,
{
}

} // verus!
