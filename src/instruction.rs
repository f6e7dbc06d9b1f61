//! Instructions as plain values: a program, an ordered list of account
//! references with their signer and writable flags, and a payload. The
//! payload layouts of the supported operations are stated here.
use vstd::prelude::*;
use vstd::arithmetic::div_mod::{lemma_div_denominator, lemma_div_is_ordered, lemma_fundamental_div_mod, lemma_small_mod};
use solana_sdk::program_error::ProgramError;
use solana_sdk::pubkey::Pubkey;

verus! {

/// One account reference of an instruction.
#[derive(Clone, Copy, Debug)]
pub struct AccountMeta {
    pub pubkey: [u8; 32],
    pub is_signer: bool,
    pub is_writable: bool,
}

/// One program invocation. The order of `accounts` is their role.
#[derive(Clone, Debug)]
pub struct Instruction {
    pub program_id: [u8; 32],
    pub accounts: Vec<AccountMeta>,
    pub data: Vec<u8>,
}

#[verifier::external_type_specification]
#[verifier::external_body]
pub struct ExProgramError(ProgramError);

/// The token program, `TokenkegQfeZyiNwAJbNbGKPFXCWuBvf9Ss623VQ5DA`.
pub open spec fn token_program_id() -> Seq<u8> {
    seq![
        6u8, 221, 246, 225, 215, 101, 161, 147, 217, 203, 225, 70, 206, 235, 121, 172,
        28, 180, 133, 237, 95, 91, 55, 145, 58, 140, 245, 133, 126, 255, 0, 169,
    ]
}

/// The rent sysvar, `SysvarRent111111111111111111111111111111111`.
pub open spec fn rent_sysvar_id() -> Seq<u8> {
    seq![
        6u8, 167, 213, 23, 25, 44, 92, 81, 33, 140, 201, 76, 61, 74, 241, 127,
        88, 218, 238, 8, 155, 161, 253, 68, 227, 219, 217, 138, 0, 0, 0, 0,
    ]
}

/// The native system program, `11111111111111111111111111111111`: 32 zero bytes.
pub open spec fn system_program_id() -> Seq<u8> {
    Seq::new(32, |i: int| 0u8)
}

/// The associated token address of a wallet for a mint.
pub uninterp spec fn associated_address(wallet: Seq<u8>, mint: Seq<u8>) -> Seq<u8>;

/// The eight little-endian bytes of `v`.
pub open spec fn le_bytes(v: u64) -> Seq<u8> {
    seq![
        (v % 0x100) as u8,
        ((v / 0x100) % 0x100) as u8,
        ((v / 0x1_0000) % 0x100) as u8,
        ((v / 0x100_0000) % 0x100) as u8,
        ((v / 0x1_0000_0000) % 0x100) as u8,
        ((v / 0x100_0000_0000) % 0x100) as u8,
        ((v / 0x1_0000_0000_0000) % 0x100) as u8,
        ((v / 0x100_0000_0000_0000) % 0x100) as u8,
    ]
}

/// The number that little-endian bytes stand for.
pub open spec fn le_value(b: Seq<u8>) -> nat
    decreases b.len(),
{
    if b.len() == 0 {
        0
    } else {
        b[0] as nat + 256 * le_value(b.subrange(1, b.len() as int))
    }
}

/// The eight bytes written for an amount stand for exactly that amount, for
/// every `u64` from 0 to `u64::MAX`: nothing is cut off.
pub proof fn lemma_le_bytes_exact(v: u64)
    ensures
        le_bytes(v).len() == 8,
        le_value(le_bytes(v)) == v,
{
    let b = le_bytes(v);
    let q1 = v as int / 256;
    let q2 = q1 / 256;
    let q3 = q2 / 256;
    let q4 = q3 / 256;
    let q5 = q4 / 256;
    let q6 = q5 / 256;
    let q7 = q6 / 256;
    lemma_div_denominator(v as int, 256, 256);
    lemma_div_denominator(v as int, 0x1_0000, 256);
    lemma_div_denominator(v as int, 0x100_0000, 256);
    lemma_div_denominator(v as int, 0x1_0000_0000, 256);
    lemma_div_denominator(v as int, 0x100_0000_0000, 256);
    lemma_div_denominator(v as int, 0x1_0000_0000_0000, 256);
    assert(q7 == v as int / 0x100_0000_0000_0000);
    assert(q7 < 256) by {
        lemma_div_is_ordered(v as int, 0xffff_ffff_ffff_ffff, 0x100_0000_0000_0000);
    }
    lemma_fundamental_div_mod(v as int, 256);
    lemma_fundamental_div_mod(q1, 256);
    lemma_fundamental_div_mod(q2, 256);
    lemma_fundamental_div_mod(q3, 256);
    lemma_fundamental_div_mod(q4, 256);
    lemma_fundamental_div_mod(q5, 256);
    lemma_fundamental_div_mod(q6, 256);
    lemma_small_mod(q7 as nat, 256);
    reveal_with_fuel(le_value, 9);
    assert(b.subrange(1, 8) =~= seq![b[1], b[2], b[3], b[4], b[5], b[6], b[7]]);
    assert(b.subrange(1, 8).subrange(1, 7) =~= seq![b[2], b[3], b[4], b[5], b[6], b[7]]);
    assert(b.subrange(1, 8).subrange(1, 7).subrange(1, 6) =~= seq![b[3], b[4], b[5], b[6], b[7]]);
    assert(seq![b[3], b[4], b[5], b[6], b[7]].subrange(1, 5) =~= seq![b[4], b[5], b[6], b[7]]);
    assert(seq![b[4], b[5], b[6], b[7]].subrange(1, 4) =~= seq![b[5], b[6], b[7]]);
    assert(seq![b[5], b[6], b[7]].subrange(1, 3) =~= seq![b[6], b[7]]);
    assert(seq![b[6], b[7]].subrange(1, 2) =~= seq![b[7]]);
    assert(seq![b[7]].subrange(1, 1) =~= Seq::<u8>::empty());
}

/// An account reference as a triple: address, signer, writable.
pub open spec fn meta_view(m: AccountMeta) -> (Seq<u8>, bool, bool) {
    (m.pubkey@, m.is_signer, m.is_writable)
}

/// The account references of an instruction as triples, in order.
pub open spec fn metas_view(ms: Seq<AccountMeta>) -> Seq<(Seq<u8>, bool, bool)> {
    ms.map_values(|m: AccountMeta| meta_view(m))
}

/// `ix` invokes `program` on `accounts` with payload `data`.
pub open spec fn is_instruction(ix: Instruction, program: Seq<u8>, accounts: Seq<(Seq<u8>, bool, bool)>, data: Seq<u8>) -> bool {
    &&& ix.program_id@ == program
    &&& metas_view(ix.accounts@) == accounts
    &&& ix.data@ == data
}

/// Initialize-mint accounts: the mint (writable), then the rent sysvar.
pub open spec fn initialize_mint_accounts(mint: Seq<u8>) -> Seq<(Seq<u8>, bool, bool)> {
    seq![(mint, false, true), (rent_sysvar_id(), false, false)]
}

/// Initialize-mint payload: opcode 0, the decimals, the authority, and 0 for
/// "no freeze authority".
pub open spec fn initialize_mint_data(authority: Seq<u8>, decimals: u8) -> Seq<u8> {
    seq![0u8, decimals] + authority + seq![0u8]
}

/// Accounts of mint-to and of token transfer: two writable accounts, then
/// the signing authority (read-only).
pub open spec fn token_move_accounts(first: Seq<u8>, second: Seq<u8>, authority: Seq<u8>) -> Seq<(Seq<u8>, bool, bool)> {
    seq![(first, false, true), (second, false, true), (authority, true, false)]
}

/// Mint-to payload: opcode 7 and the amount.
pub open spec fn mint_to_data(amount: u64) -> Seq<u8> {
    seq![7u8] + le_bytes(amount)
}

/// Token transfer payload: opcode 3 and the amount.
pub open spec fn token_transfer_data(amount: u64) -> Seq<u8> {
    seq![3u8] + le_bytes(amount)
}

/// Native transfer accounts: the payer (writable signer), then the recipient
/// (writable).
pub open spec fn system_transfer_accounts(from: Seq<u8>, to: Seq<u8>) -> Seq<(Seq<u8>, bool, bool)> {
    seq![(from, true, true), (to, false, true)]
}

/// Native transfer payload: the 4-byte little-endian variant index 2, then
/// the amount.
pub open spec fn system_transfer_data(lamports: u64) -> Seq<u8> {
    seq![2u8, 0, 0, 0] + le_bytes(lamports)
}

/// Relies on `spl_token::instruction::initialize_mint`, called with the token
/// program's own id (so its program check passes) and no freeze authority.
#[verifier::external_body]
pub(crate) fn token_initialize_mint(mint: &[u8; 32], authority: &[u8; 32], decimals: u8) -> (r: Result<Instruction, ProgramError>)
    ensures
        r is Ok,
        is_instruction(r->Ok_0, token_program_id(), initialize_mint_accounts(mint@), initialize_mint_data(authority@, decimals)),
{
    let (m, a) = (Pubkey::new_from_array(*mint), Pubkey::new_from_array(*authority));
    let ix = ::spl_token::instruction::initialize_mint(&::spl_token::id(), &m, &a, None, decimals)?;
    let accounts = ix.accounts.iter().map(|a| AccountMeta {
        pubkey: a.pubkey.to_bytes(), is_signer: a.is_signer, is_writable: a.is_writable,
    }).collect();
    Ok(Instruction { program_id: ix.program_id.to_bytes(), accounts, data: ix.data })
}

/// Relies on `spl_token::instruction::mint_to`, called with the token
/// program's own id and no multisig signers.
#[verifier::external_body]
pub(crate) fn token_mint_to(mint: &[u8; 32], destination: &[u8; 32], authority: &[u8; 32], amount: u64) -> (r: Result<Instruction, ProgramError>)
    ensures
        r is Ok,
        is_instruction(r->Ok_0, token_program_id(), token_move_accounts(mint@, destination@, authority@), mint_to_data(amount)),
{
    let (m, d) = (Pubkey::new_from_array(*mint), Pubkey::new_from_array(*destination));
    let a = Pubkey::new_from_array(*authority);
    let ix = ::spl_token::instruction::mint_to(&::spl_token::id(), &m, &d, &a, &[], amount)?;
    let accounts = ix.accounts.iter().map(|a| AccountMeta {
        pubkey: a.pubkey.to_bytes(), is_signer: a.is_signer, is_writable: a.is_writable,
    }).collect();
    Ok(Instruction { program_id: ix.program_id.to_bytes(), accounts, data: ix.data })
}

/// Relies on `spl_token::instruction::transfer`, called with the token
/// program's own id and no multisig signers.
#[verifier::external_body]
pub(crate) fn token_transfer(source: &[u8; 32], destination: &[u8; 32], owner: &[u8; 32], amount: u64) -> (r: Result<Instruction, ProgramError>)
    ensures
        r is Ok,
        is_instruction(r->Ok_0, token_program_id(), token_move_accounts(source@, destination@, owner@), token_transfer_data(amount)),
{
    let (s, d) = (Pubkey::new_from_array(*source), Pubkey::new_from_array(*destination));
    let o = Pubkey::new_from_array(*owner);
    let ix = ::spl_token::instruction::transfer(&::spl_token::id(), &s, &d, &o, &[], amount)?;
    let accounts = ix.accounts.iter().map(|a| AccountMeta {
        pubkey: a.pubkey.to_bytes(), is_signer: a.is_signer, is_writable: a.is_writable,
    }).collect();
    Ok(Instruction { program_id: ix.program_id.to_bytes(), accounts, data: ix.data })
}

/// Relies on `system_instruction::transfer`: a bincode-encoded
/// `SystemInstruction::Transfer` (variant 2) to the system program.
#[verifier::external_body]
pub(crate) fn system_transfer(from: &[u8; 32], to: &[u8; 32], lamports: u64) -> (r: Instruction)
    ensures
        is_instruction(r, system_program_id(), system_transfer_accounts(from@, to@), system_transfer_data(lamports)),
{
    let (f, t) = (Pubkey::new_from_array(*from), Pubkey::new_from_array(*to));
    let ix = solana_sdk::system_instruction::transfer(&f, &t, lamports);
    let accounts = ix.accounts.iter().map(|a| AccountMeta {
        pubkey: a.pubkey.to_bytes(), is_signer: a.is_signer, is_writable: a.is_writable,
    }).collect();
    Instruction { program_id: ix.program_id.to_bytes(), accounts, data: ix.data }
}

/// Relies on `spl_associated_token_account::get_associated_token_address`:
/// the derived token account of a wallet for a mint.
#[verifier::external_body]
pub(crate) fn associated_token_address(wallet: &[u8; 32], mint: &[u8; 32]) -> (r: [u8; 32])
    ensures
        r@ == associated_address(wallet@, mint@),
{
    let (w, m) = (Pubkey::new_from_array(*wallet), Pubkey::new_from_array(*mint));
    spl_associated_token_account::get_associated_token_address(&w, &m).to_bytes()
}

} // verus!
