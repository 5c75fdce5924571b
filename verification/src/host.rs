//! Calls into the host runtime's libraries.
//!
//! Every function here that makes such a call is taken on trust: its contract
//! states what the library's source shows the call to return, and nothing
//! checks it.

use crate::account::{AccountMeta, Instruction};
use crate::codec::u64_le;
use crate::pubkey::Pubkey;
use solana_program::pubkey::Pubkey as HostPubkey;
use solana_program::sysvar::Sysvar;
use vstd::prelude::*;

verus! {

/// The address of the system program.
pub const SYSTEM_PROGRAM_ID: [u8; 32] = [
    0, 0, 0, 0, 0, 0, 0, 0, 0, 0, 0, 0, 0, 0, 0, 0,
    0, 0, 0, 0, 0, 0, 0, 0, 0, 0, 0, 0, 0, 0, 0, 0,
];

/// The address of the rent sysvar.
pub const RENT_SYSVAR_ID: [u8; 32] = [
    6, 167, 213, 23, 25, 44, 92, 81, 33, 140, 201, 76, 61, 74, 241, 127,
    88, 218, 238, 8, 155, 161, 253, 68, 227, 219, 217, 138, 0, 0, 0, 0,
];

/// The address of the fungible-token program.
pub const TOKEN_PROGRAM_ID: [u8; 32] = [
    6, 221, 246, 225, 215, 101, 161, 147, 217, 203, 225, 70, 206, 235, 121, 172,
    28, 180, 133, 237, 95, 91, 55, 145, 58, 140, 245, 133, 126, 255, 0, 169,
];

/// The address of the associated-token-account program.
pub const ASSOCIATED_TOKEN_PROGRAM_ID: [u8; 32] = [
    140, 151, 37, 143, 78, 36, 137, 241, 187, 61, 16, 41, 20, 142, 13, 131,
    11, 90, 19, 153, 218, 255, 16, 132, 4, 142, 123, 216, 219, 233, 248, 89,
];

/// The program-derived address for `seeds` under `program_id`, with its bump
/// seed, as the host derives it; `None` where no bump seed gives an address.
pub uninterp spec fn program_address(seeds: Seq<Seq<u8>>, program_id: Seq<u8>) -> Option<
    (Seq<u8>, u8),
>;

/// The instruction data of the system program's account creation, as its
/// library serializes them.
pub uninterp spec fn system_create_account_data(
    from: Seq<u8>,
    to: Seq<u8>,
    lamports: u64,
    space: u64,
    owner: Seq<u8>,
) -> Seq<u8>;

/// The instruction data of the system program's transfer, as its library
/// serializes them.
pub uninterp spec fn system_transfer_data(from: Seq<u8>, to: Seq<u8>, lamports: u64) -> Seq<u8>;

/// The system program's instruction that creates account `to` with `space`
/// bytes owned by `owner`, funded with `lamports` from `from`. It names `from`
/// and `to`, both as signers and both writable.
pub open spec fn system_create_account_instruction(
    from: Seq<u8>,
    to: Seq<u8>,
    lamports: u64,
    space: u64,
    owner: Seq<u8>,
) -> (Seq<u8>, Seq<(Seq<u8>, bool, bool)>, Seq<u8>) {
    (
        SYSTEM_PROGRAM_ID@,
        seq![(from, true, true), (to, true, true)],
        system_create_account_data(from, to, lamports, space, owner),
    )
}

/// The system program's instruction that moves `lamports` from `from` to `to`.
/// It names `from` as a signer and both accounts writable.
pub open spec fn system_transfer_instruction(from: Seq<u8>, to: Seq<u8>, lamports: u64) -> (
    Seq<u8>,
    Seq<(Seq<u8>, bool, bool)>,
    Seq<u8>,
) {
    (
        SYSTEM_PROGRAM_ID@,
        seq![(from, true, true), (to, false, true)],
        system_transfer_data(from, to, lamports),
    )
}

/// The token program's instruction that moves `amount` units from token
/// account `source` to `destination` on the word of `authority` and `signers`.
/// It names the two token accounts writable, then the authority, which signs
/// itself only where there are no `signers`, then each of the `signers` as a
/// signer. Its data are the tag 3 and the amount in eight little-endian bytes.
pub open spec fn token_transfer_instruction(
    token_program: Seq<u8>,
    source: Seq<u8>,
    destination: Seq<u8>,
    authority: Seq<u8>,
    signers: Seq<Seq<u8>>,
    amount: u64,
) -> (Seq<u8>, Seq<(Seq<u8>, bool, bool)>, Seq<u8>) {
    (
        token_program,
        seq![(source, false, true), (destination, false, true), (authority, signers.len() == 0, false)]
            + signers.map_values(|signer: Seq<u8>| (signer, true, false)),
        seq![3u8] + u64_le(amount),
    )
}

/// The seeds from which the associated-token-account program derives the
/// address of the token account of `wallet` for `mint`.
pub open spec fn associated_token_seeds(wallet: Seq<u8>, mint: Seq<u8>) -> Seq<Seq<u8>> {
    seq![wallet, TOKEN_PROGRAM_ID@, mint]
}

/// The address of the token account of `wallet` for `mint`, where the
/// derivation gives one.
pub open spec fn associated_token_address(wallet: Seq<u8>, mint: Seq<u8>) -> Seq<u8> {
    program_address(associated_token_seeds(wallet, mint), ASSOCIATED_TOKEN_PROGRAM_ID@)->Some_0.0
}

/// The associated-token-account program's instruction that creates the token
/// account of `wallet` for `mint`, paid for by `funder`. It names the funder
/// as a writable signer, the account to create writable, then the wallet, the
/// mint, the system program, the token program and the rent sysvar, and
/// carries no data.
pub open spec fn associated_token_account_instruction(
    funder: Seq<u8>,
    wallet: Seq<u8>,
    mint: Seq<u8>,
) -> (Seq<u8>, Seq<(Seq<u8>, bool, bool)>, Seq<u8>) {
    (
        ASSOCIATED_TOKEN_PROGRAM_ID@,
        seq![
            (funder, true, true),
            (associated_token_address(wallet, mint), false, true),
            (wallet, false, false),
            (mint, false, false),
            (SYSTEM_PROGRAM_ID@, false, false),
            (TOKEN_PROGRAM_ID@, false, false),
            (RENT_SYSVAR_ID@, false, false),
        ],
        Seq::<u8>::empty(),
    )
}

/// What an exec derivation result denotes.
pub open spec fn derived_view(found: Option<(Pubkey, u8)>) -> Option<(Seq<u8>, u8)> {
    match found {
        Some((address, bump)) => Some((address@, bump)),
        None => None,
    }
}

/// The addresses of `keys`, in order.
pub open spec fn keys_view(keys: Seq<Pubkey>) -> Seq<Seq<u8>> {
    keys.map_values(|k: Pubkey| k@)
}

/// Calls `Pubkey::try_find_program_address`. Trusted: the result is the host's
/// derivation for these seeds and this program, a function of the two alone.
#[verifier::external_body]
pub(crate) fn try_find_program_address(seeds: &Vec<Vec<u8>>, program_id: &Pubkey) -> (found:
    Option<(Pubkey, u8)>)
    ensures
        derived_view(found) == program_address(seeds.deep_view(), program_id@),
{
    let slices: Vec<&[u8]> = seeds.iter().map(|seed| seed.as_slice()).collect();
    let program = HostPubkey::new_from_array(program_id.bytes);
    HostPubkey::try_find_program_address(&slices, &program).map(
        |(address, bump)| (Pubkey { bytes: address.to_bytes() }, bump),
    )
}

/// Calls `spl_token::id`. Trusted: it is the address that the token program
/// declares, `TokenkegQfeZyiNwAJbNbGKPFXCWuBvf9Ss623VQ5DA` in base 58.
#[verifier::external_body]
pub(crate) fn token_program_id() -> (id: Pubkey)
    ensures
        id@ == TOKEN_PROGRAM_ID@,
{
    Pubkey { bytes: spl_token::id().to_bytes() }
}

/// Calls `spl_associated_token_account::id`. Trusted: it is the address that the
/// associated-token-account program declares,
/// `ATokenGPvbdGVxr1b2hvZbsiqW5xWH25efTNsLJA8knL` in base 58.
#[verifier::external_body]
pub(crate) fn associated_token_program_id() -> (id: Pubkey)
    ensures
        id@ == ASSOCIATED_TOKEN_PROGRAM_ID@,
{
    Pubkey { bytes: spl_associated_token_account::id().to_bytes() }
}

/// Calls `Clock::get` and picks the Unix timestamp. Trusted: nothing is claimed
/// of the result, which is the host's to decide.
#[verifier::external_body]
pub(crate) fn clock_unix_timestamp() -> (now: Result<
    i64,
    solana_program::program_error::ProgramError,
>) {
    solana_program::clock::Clock::get().map(|clock| clock.unix_timestamp)
}

/// Calls `system_instruction::create_account`. Trusted: the instruction is for
/// the system program and names `from` and `to`, in this order, both as
/// signers and both writable; its data are what the library serializes for
/// these arguments.
#[verifier::external_body]
pub(crate) fn system_create_account(
    from: &Pubkey,
    to: &Pubkey,
    lamports: u64,
    space: u64,
    owner: &Pubkey,
) -> (made: Instruction)
    ensures
        made@.0 == SYSTEM_PROGRAM_ID@,
        made@.1 == seq![(from@, true, true), (to@, true, true)],
        made@.2 == system_create_account_data(from@, to@, lamports, space, owner@),
{
    let made = solana_program::system_instruction::create_account(
        &HostPubkey::new_from_array(from.bytes),
        &HostPubkey::new_from_array(to.bytes),
        lamports,
        space,
        &HostPubkey::new_from_array(owner.bytes),
    );
    let accounts = made.accounts.iter().map(|meta| AccountMeta {
        pubkey: Pubkey { bytes: meta.pubkey.to_bytes() },
        is_signer: meta.is_signer,
        is_writable: meta.is_writable,
    }).collect();
    Instruction { program_id: Pubkey { bytes: made.program_id.to_bytes() }, accounts, data: made.data }
}

/// Calls `system_instruction::transfer`. Trusted: the instruction is for the
/// system program and names `from`, a writable signer, then `to`, writable;
/// its data are what the library serializes for these arguments.
#[verifier::external_body]
pub(crate) fn system_transfer(from: &Pubkey, to: &Pubkey, lamports: u64) -> (made: Instruction)
    ensures
        made@.0 == SYSTEM_PROGRAM_ID@,
        made@.1 == seq![(from@, true, true), (to@, false, true)],
        made@.2 == system_transfer_data(from@, to@, lamports),
{
    let made = solana_program::system_instruction::transfer(
        &HostPubkey::new_from_array(from.bytes),
        &HostPubkey::new_from_array(to.bytes),
        lamports,
    );
    let accounts = made.accounts.iter().map(|meta| AccountMeta {
        pubkey: Pubkey { bytes: meta.pubkey.to_bytes() },
        is_signer: meta.is_signer,
        is_writable: meta.is_writable,
    }).collect();
    Instruction { program_id: Pubkey { bytes: made.program_id.to_bytes() }, accounts, data: made.data }
}

/// Calls `spl_token::instruction::transfer`. Trusted: the call succeeds exactly
/// when `token_program` is the token program's own address. The instruction is
/// then for that program; it names `source` and `destination` writable, the
/// authority read-only and signing only where `signers` is empty, and each of
/// `signers` as a read-only signer; its data are the byte 3 and the amount in
/// eight little-endian bytes.
#[verifier::external_body]
pub(crate) fn token_transfer(
    token_program: &Pubkey,
    source: &Pubkey,
    destination: &Pubkey,
    authority: &Pubkey,
    signers: &Vec<Pubkey>,
    amount: u64,
) -> (made: Result<Instruction, solana_program::program_error::ProgramError>)
    ensures
        made is Ok <==> token_program@ == TOKEN_PROGRAM_ID@,
        made matches Ok(instruction) ==> instruction@ == token_transfer_instruction(
            token_program@,
            source@,
            destination@,
            authority@,
            keys_view(signers@),
            amount,
        ),
{
    let keys: Vec<HostPubkey> = signers.iter().map(|k| HostPubkey::new_from_array(k.bytes)).collect();
    let made = spl_token::instruction::transfer(
        &HostPubkey::new_from_array(token_program.bytes),
        &HostPubkey::new_from_array(source.bytes),
        &HostPubkey::new_from_array(destination.bytes),
        &HostPubkey::new_from_array(authority.bytes),
        &keys.iter().collect::<Vec<&HostPubkey>>(),
        amount,
    )?;
    let accounts = made.accounts.iter().map(|meta| AccountMeta {
        pubkey: Pubkey { bytes: meta.pubkey.to_bytes() },
        is_signer: meta.is_signer,
        is_writable: meta.is_writable,
    }).collect();
    Ok(Instruction { program_id: Pubkey { bytes: made.program_id.to_bytes() }, accounts, data: made.data })
}

/// Calls `spl_associated_token_account::create_associated_token_account`.
/// Trusted: the instruction is for the associated-token-account program,
/// carries no data and names seven accounts: the funder as a writable signer,
/// the derived token account writable, then the wallet, the mint, the system
/// program, the token program and the rent sysvar, read-only. The call derives
/// the token account's address and panics where there is none, which
/// `requires` leaves out.
#[verifier::external_body]
#[allow(deprecated)]
pub(crate) fn create_associated_token_account(funder: &Pubkey, wallet: &Pubkey, mint: &Pubkey) -> (made:
    Instruction)
    requires
        program_address(
            associated_token_seeds(wallet@, mint@),
            ASSOCIATED_TOKEN_PROGRAM_ID@,
        ) is Some,
    ensures
        made@ == associated_token_account_instruction(funder@, wallet@, mint@),
{
    let made = spl_associated_token_account::create_associated_token_account(
        &HostPubkey::new_from_array(funder.bytes),
        &HostPubkey::new_from_array(wallet.bytes),
        &HostPubkey::new_from_array(mint.bytes),
    );
    let accounts = made.accounts.iter().map(|meta| AccountMeta {
        pubkey: Pubkey { bytes: meta.pubkey.to_bytes() },
        is_signer: meta.is_signer,
        is_writable: meta.is_writable,
    }).collect();
    Instruction { program_id: Pubkey { bytes: made.program_id.to_bytes() }, accounts, data: made.data }
}

} // verus!
