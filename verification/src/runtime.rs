//! What the program has from the Solana runtime and the token programs:
//! program ids, address derivation, sysvars and token account decoding.
//! Each function here makes one outside call; its contract is trusted.
use vstd::prelude::*;
use solana_program::sysvar::Sysvar;
use spl_token_2022::extension::StateWithExtensions;
use crate::bytes::u64_at;
use crate::error::ProgramError;
use crate::instruction::{AccountMeta, Instruction};
use crate::pubkey::Pubkey;
use crate::seeds::seeds_view;

verus! {

/// Address of the SPL Token 2022 program.
pub open spec fn spec_token_2022_program_id() -> Seq<u8> {
    seq![
        6u8, 221, 246, 225, 238, 117, 143, 222, 24, 66, 93, 188, 228, 108, 205, 218, 182, 26, 252,
        77, 131, 185, 13, 39, 254, 189, 249, 40, 216, 161, 139, 252,
    ]
}

/// Address of the (first) SPL Token program.
pub open spec fn spec_token_program_id() -> Seq<u8> {
    seq![
        6u8, 221, 246, 225, 215, 101, 161, 147, 217, 203, 225, 70, 206, 235, 121, 172, 28, 180,
        133, 237, 95, 91, 55, 145, 58, 140, 245, 133, 126, 255, 0, 169,
    ]
}

/// Address of the associated token account program.
pub open spec fn spec_associated_token_program_id() -> Seq<u8> {
    seq![
        140u8, 151, 37, 143, 78, 36, 137, 241, 187, 61, 16, 41, 20, 142, 13, 131, 11, 90, 19, 153,
        218, 255, 16, 132, 4, 142, 123, 216, 219, 233, 248, 89,
    ]
}

/// Address of the system program (all zero bytes).
pub open spec fn spec_system_program_id() -> Seq<u8> {
    Seq::new(32, |i: int| 0u8)
}

/// Address of the clock sysvar.
pub open spec fn spec_clock_sysvar_id() -> Seq<u8> {
    seq![
        6u8, 167, 213, 23, 24, 199, 116, 201, 40, 86, 99, 152, 105, 29, 94, 182, 139, 94, 184, 163,
        155, 75, 109, 92, 115, 85, 91, 33, 0, 0, 0, 0,
    ]
}

/// The program derived address and bump seed that the runtime's search
/// finds for `seeds` (bump seed excluded) under `program_id`, or `None`
/// where the search finds none.
pub uninterp spec fn program_address(seeds: Seq<Seq<u8>>, program_id: Seq<u8>) -> Option<
    (Seq<u8>, u8),
>;

/// The unix timestamp held by the clock sysvar account with address `key`
/// and data `data`: the clock's fields (slot, epoch start timestamp,
/// epoch, leader schedule epoch, unix timestamp) are 8-byte little-endian
/// integers, so the timestamp is bytes 32..40; `None` where the address is
/// not the clock sysvar's or the data is shorter than the five fields.
pub open spec fn spec_clock_timestamp(key: Seq<u8>, data: Seq<u8>) -> Option<i64> {
    if key == spec_clock_sysvar_id() && data.len() >= 40 {
        Some(u64_at(data, 32) as i64)
    } else {
        None
    }
}

/// What reading the clock sysvar from an account gives: its timestamp, or
/// `InvalidArgument`.
pub open spec fn spec_read_clock(key: Seq<u8>, data: Seq<u8>) -> Result<i64, ProgramError> {
    match spec_clock_timestamp(key, data) {
        Some(t) => Ok(t),
        None => Err(ProgramError::InvalidArgument),
    }
}

/// The token balance of a token account (with or without extensions)
/// whose data is `data`, or the runtime code of the error its decoding
/// fails with.
pub uninterp spec fn token_account_amount(data: Seq<u8>) -> Result<u64, u64>;

/// The decimals of a mint account (with or without extensions) whose data
/// is `data`, or the runtime code of the error its decoding fails with.
pub uninterp spec fn mint_decimals(data: Seq<u8>) -> Result<u8, u64>;

/// `spl_token_2022::id()`: the SPL Token 2022 program's address, whose
/// bytes the crate's `declare_id!` fixes.
#[verifier::external_body]
pub(crate) fn token_2022_program_id() -> (id: Pubkey)
    ensures
        id@ == spec_token_2022_program_id(),
{
    Pubkey { bytes: spl_token_2022::id().to_bytes() }
}

/// `spl_associated_token_account::id()`: the associated token account
/// program's address, whose bytes the crate's `declare_id!` fixes.
#[verifier::external_body]
pub(crate) fn associated_token_program_id() -> (id: Pubkey)
    ensures
        id@ == spec_associated_token_program_id(),
{
    Pubkey { bytes: spl_associated_token_account::id().to_bytes() }
}

/// `solana_program::system_program::id()`: the system program's address.
#[verifier::external_body]
pub(crate) fn system_program_id() -> (id: Pubkey)
    ensures
        id@ == spec_system_program_id(),
{
    Pubkey { bytes: solana_program::system_program::id().to_bytes() }
}

/// `solana_program::sysvar::clock::id()`: the clock sysvar's address.
#[verifier::external_body]
pub(crate) fn clock_sysvar_id() -> (id: Pubkey)
    ensures
        id@ == spec_clock_sysvar_id(),
{
    Pubkey { bytes: solana_program::sysvar::clock::id().to_bytes() }
}

/// `Pubkey::try_find_program_address`: searches the bump seeds from 255
/// down for one that, appended to `seeds`, derives an address off the
/// ed25519 curve; the result is a function of the seeds and program id
/// alone, named `program_address`.
#[verifier::external_body]
pub(crate) fn try_find_program_address(seeds: &Vec<Vec<u8>>, program_id: &Pubkey) -> (r: Option<
    (Pubkey, u8),
>)
    ensures
        match r {
            Some((k, b)) => program_address(seeds_view(seeds), program_id@) == Some((k@, b)),
            None => program_address(seeds_view(seeds), program_id@) is None,
        },
{
    let refs: Vec<&[u8]> = seeds.iter().map(|s| s.as_slice()).collect();
    let pid = solana_program::pubkey::Pubkey::new_from_array(program_id.bytes);
    solana_program::pubkey::Pubkey::try_find_program_address(&refs, &pid).map(
        |(k, b)| (Pubkey { bytes: k.to_bytes() }, b),
    )
}

/// `Clock::from_account_info`: decodes the clock sysvar from an account
/// with address `key` and data `data`. It fails with `InvalidArgument`
/// where the address is not the clock sysvar's or bincode cannot decode
/// the data; bincode's default decoding reads the five 8-byte fields
/// little-endian and allows trailing bytes.
#[verifier::external_body]
pub(crate) fn clock_from_account(key: &Pubkey, data: &[u8]) -> (r: Result<i64, ProgramError>)
    ensures
        r == spec_read_clock(key@, data@),
{
    let k = solana_program::pubkey::Pubkey::new_from_array(key.bytes);
    let owner = solana_program::pubkey::Pubkey::default();
    let (mut lamports, mut bytes) = (0u64, data.to_vec());
    let info = solana_program::account_info::AccountInfo::new(
        &k, false, false, &mut lamports, &mut bytes, &owner, false, 0,
    );
    solana_program::clock::Clock::from_account_info(&info).map(|c| c.unix_timestamp).map_err(
        |_| ProgramError::InvalidArgument,
    )
}

/// `Clock::get`: reads the clock sysvar from the runtime. The timestamp
/// depends on when and where the program runs; nothing is said of it.
/// A failure is passed on by its runtime error code.
#[verifier::external_body]
pub(crate) fn current_unix_timestamp() -> (r: Result<i64, ProgramError>)
    ensures
        r is Err ==> r->Err_0 is Outside,
{
    solana_program::clock::Clock::get().map(|c| c.unix_timestamp).map_err(
        |e| ProgramError::Outside(u64::from(e)),
    )
}

/// `StateWithExtensions::<spl_token_2022::state::Account>::unpack`: decodes
/// a token account (with or without extensions) and gives its balance;
/// the outcome, a function of the data, is named `token_account_amount`.
#[verifier::external_body]
pub(crate) fn unpack_token_account_amount(data: &[u8]) -> (r: Result<u64, ProgramError>)
    ensures
        match token_account_amount(data@) {
            Ok(a) => r == Ok::<u64, ProgramError>(a),
            Err(c) => r == Err::<u64, ProgramError>(ProgramError::Outside(c)),
        },
{
    StateWithExtensions::<spl_token_2022::state::Account>::unpack(data).map(|s| s.base.amount).map_err(
        |e| ProgramError::Outside(u64::from(e)),
    )
}

/// `StateWithExtensions::<spl_token_2022::state::Mint>::unpack`: decodes a
/// mint (with or without extensions) and gives its decimals; the outcome,
/// a function of the data, is named `mint_decimals`.
#[verifier::external_body]
pub(crate) fn unpack_mint_decimals(data: &[u8]) -> (r: Result<u8, ProgramError>)
    ensures
        match mint_decimals(data@) {
            Ok(d) => r == Ok::<u8, ProgramError>(d),
            Err(c) => r == Err::<u8, ProgramError>(ProgramError::Outside(c)),
        },
{
    StateWithExtensions::<spl_token_2022::state::Mint>::unpack(data).map(|s| s.base.decimals).map_err(
        |e| ProgramError::Outside(u64::from(e)),
    )
}

/// The instruction data of a token transfer with checked decimals: tag
/// 12, the amount little-endian, the decimals.
pub open spec fn spec_transfer_checked_data(amount: u64, decimals: u8) -> Seq<u8> {
    seq![12u8] + vstd::bytes::spec_u64_to_le_bytes(amount) + seq![decimals]
}

/// Whether `key` is the address of SPL Token 2022 or of SPL Token.
pub open spec fn is_token_program(key: Seq<u8>) -> bool {
    key == spec_token_2022_program_id() || key == spec_token_program_id()
}

/// Whether `ix` is the token transfer, with checked decimals and no
/// multisig signers, of `amount` from `source` to `destination` under
/// `authority`.
pub open spec fn is_transfer_checked(
    ix: Instruction,
    token_program: Seq<u8>,
    source: Seq<u8>,
    mint: Seq<u8>,
    destination: Seq<u8>,
    authority: Seq<u8>,
    amount: u64,
    decimals: u8,
) -> bool {
    &&& ix.program_id@ == token_program
    &&& ix.accounts@.len() == 4
    &&& ix.accounts@[0].describes(source, false, true)
    &&& ix.accounts@[1].describes(mint, false, false)
    &&& ix.accounts@[2].describes(destination, false, true)
    &&& ix.accounts@[3].describes(authority, true, false)
    &&& ix.data@ == spec_transfer_checked_data(amount, decimals)
}

/// Whether `r` is the instruction that `is_transfer_checked` describes.
pub open spec fn is_transfer_checked_result(
    r: Result<Instruction, ProgramError>,
    token_program: Seq<u8>,
    source: Seq<u8>,
    mint: Seq<u8>,
    destination: Seq<u8>,
    authority: Seq<u8>,
    amount: u64,
    decimals: u8,
) -> bool {
    &&& r is Ok
    &&& is_transfer_checked(
        r->Ok_0,
        token_program,
        source,
        mint,
        destination,
        authority,
        amount,
        decimals,
    )
}

/// `spl_token_2022::instruction::transfer_checked` with no multisig
/// signers. It fails with `IncorrectProgramId` unless `token_program` is
/// SPL Token 2022 or SPL Token; otherwise it gives the instruction for
/// `token_program` with the accounts source (writable), mint, destination
/// (writable) and authority (signer), and data tag 12, the amount
/// little-endian and the decimals.
#[verifier::external_body]
pub(crate) fn transfer_checked(
    token_program: &Pubkey,
    source: &Pubkey,
    mint: &Pubkey,
    destination: &Pubkey,
    authority: &Pubkey,
    amount: u64,
    decimals: u8,
) -> (r: Result<Instruction, ProgramError>)
    ensures
        !is_token_program(token_program@) ==> r is Err && r->Err_0
            == ProgramError::IncorrectProgramId,
        is_token_program(token_program@) ==> is_transfer_checked_result(
            r,
            token_program@,
            source@,
            mint@,
            destination@,
            authority@,
            amount,
            decimals,
        ),
{
    let k = |p: &Pubkey| solana_program::pubkey::Pubkey::new_from_array(p.bytes);
    let ix = spl_token_2022::instruction::transfer_checked(
        &k(token_program), &k(source), &k(mint), &k(destination), &k(authority), &[], amount,
        decimals,
    ).map_err(|_| ProgramError::IncorrectProgramId)?;
    let accounts = ix.accounts.iter().map(
        |m| AccountMeta { pubkey: Pubkey { bytes: m.pubkey.to_bytes() }, is_signer: m.is_signer, is_writable: m.is_writable },
    ).collect();
    Ok(Instruction { program_id: Pubkey { bytes: ix.program_id.to_bytes() }, accounts, data: ix.data })
}

} // verus!
