//! The four handlers of the program.
//!
//! A handler validates the accounts that an instruction names, derives the
//! escrow's address, and answers with the steps that the host is to carry out:
//! calls into other programs and what is written to the escrow account. It
//! changes nothing itself, so an instruction that fails has written nothing.
//!
//! `check_*` decides on values alone, with the derived address and the clock
//! among its arguments. The handlers derive addresses and build the inner
//! instructions themselves. What the host's sysvars hold comes in as plain
//! values: the rent-exempt minimum as an argument of the deposits, the clock as
//! an argument of `withdraw` and `withdraw_token`, which `process_withdraw`
//! and `process_withdraw_token` read from the host.

use crate::account::{steps_view, Account, Instruction, Step, StepView};
use crate::address::{derived, deposit_seeds, signer_seeds, withdraw_seeds};
use crate::address::{find_deposit_address, find_program_address, find_withdraw_address};
use crate::address::signing_seeds;
use crate::error::{CodecError, EscrowError, ProgramFailure, TokenError};
use crate::host::{associated_token_account_instruction, associated_token_seeds};
use crate::host::{associated_token_program_id, create_associated_token_account};
use crate::host::clock_unix_timestamp;
use crate::host::{keys_view, system_create_account, system_create_account_instruction};
use crate::host::{system_create_account_data, SYSTEM_PROGRAM_ID};
use crate::host::{system_transfer, system_transfer_instruction, token_program_id};
use crate::host::{token_transfer, token_transfer_instruction};
use crate::host::{ASSOCIATED_TOKEN_PROGRAM_ID, TOKEN_PROGRAM_ID};
use crate::instruction::TransferInstruction;
use crate::pubkey::Pubkey;
use crate::state::{InitTokenInput, TransferData, TransferInput, TransferToken};
use crate::state::{WithdrawInput, WithdrawTokenInput};
use crate::state::{overwritten, write_front};
use crate::state::{INIT_TOKEN_INPUT_LEN, TRANSFER_DATA_LEN};
use crate::{PREFIX, PREFIX_TOKEN};
use vstd::prelude::*;
use vstd::string::StringSliceAdditionalSpecFns;

verus! {

/// How long after its start time an escrow stays locked, in seconds: 24 hours.
pub const TIME_LOCK_SECONDS: i64 = 86_400;

/// Whether an escrow that started at `start_time` may be withdrawn at `now`.
/// The sum is taken in the integers: a start time within 24 hours of the
/// largest timestamp is never over.
pub open spec fn time_lock_over(start_time: i64, now: i64) -> bool {
    start_time + TIME_LOCK_SECONDS <= now
}

/// Whether an escrow that started at `start_time` may be withdrawn at `now`.
pub fn is_time_lock_over(start_time: i64, now: i64) -> (over: bool)
    ensures
        over == time_lock_over(start_time, now),
{
    now >= i64::MIN + TIME_LOCK_SECONDS && start_time <= now - TIME_LOCK_SECONDS
}

/// What a handler's answer denotes.
pub open spec fn outcome_view(outcome: Result<Vec<Step>, ProgramFailure>) -> Result<
    Seq<StepView>,
    ProgramFailure,
> {
    match outcome {
        Ok(steps) => Ok(steps_view(steps@)),
        Err(e) => Err(e),
    }
}

/// The address of the associated-token-account program.
pub open spec fn associated_token_program() -> Pubkey {
    Pubkey { bytes: ASSOCIATED_TOKEN_PROGRAM_ID }
}

/// The entry to the program's handlers.
pub struct Processor;

fn indices(list: &[usize]) -> (out: Vec<usize>)
    ensures
        out@ == list@,
{
    vstd::slice::slice_to_vec(list)
}

impl Processor {
    // ---------------------------------------------------------------------
    // Native deposit
    // ---------------------------------------------------------------------

    /// The checks of a native deposit, in order, given what the derivation
    /// for the sender's escrow found. On success, the bump seed.
    pub open spec fn create_transfer_check(
        accounts: Seq<Account>,
        data: TransferInput,
        found: Option<(Pubkey, u8)>,
    ) -> Result<u8, ProgramFailure> {
        if accounts.len() < 4 {
            Err(ProgramFailure::NotEnoughAccountKeys)
        } else if !accounts[1].is_signer {
            Err(ProgramFailure::MissingRequiredSignature)
        } else if accounts[2].key != data.receiver {
            Err(ProgramFailure::InvalidAccountData)
        } else {
            match found {
                None => Err(ProgramFailure::InvalidSeeds),
                Some((address, bump)) => if address != accounts[0].key {
                    Err(ProgramFailure::InvalidAccountData)
                } else {
                    Ok(bump)
                },
            }
        }
    }

    /// The record that a native deposit by `sender` stores.
    pub open spec fn create_transfer_record(sender: Pubkey, data: TransferInput) -> TransferData {
        TransferData {
            start_time: data.start_time,
            receiver: data.receiver,
            amount_to_send: data.amount_to_send,
            sender,
        }
    }

    /// The steps of a native deposit: create the escrow account by
    /// `instruction`, signed for the sender's escrow, then store the record.
    pub open spec fn create_transfer_steps(
        sender: Pubkey,
        data: TransferInput,
        bump: u8,
        instruction: (Seq<u8>, Seq<(Seq<u8>, bool, bool)>, Seq<u8>),
    ) -> Seq<StepView> {
        seq![
            StepView::InvokeSigned {
                instruction,
                accounts: seq![1usize, 0usize, 3usize],
                seeds: signer_seeds(sender, bump),
            },
            StepView::Store {
                account: 0,
                bytes: Self::create_transfer_record(sender, data).encode(),
            },
        ]
    }

    /// What a native deposit answers, given the host's rent-exempt minimum for
    /// an account of the record's size, or the error of reading it: the first
    /// failing check's error; else the rent's error; else the steps, whose
    /// account creation allocates the size of the record, owned by this
    /// program and funded by the sender with exactly that minimum.
    pub open spec fn create_transfer_outcome(
        program_id: Pubkey,
        accounts: Seq<Account>,
        data: TransferInput,
        rent_minimum: Result<u64, solana_program::program_error::ProgramError>,
    ) -> Result<Seq<StepView>, ProgramFailure> {
        match Self::create_transfer_check(
            accounts,
            data,
            derived(deposit_seeds(PREFIX.spec_bytes(), accounts[1].key), program_id),
        ) {
            Err(e) => Err(e),
            Ok(bump) => match rent_minimum {
                Err(e) => Err(ProgramFailure::Host(e)),
                Ok(lamports) => Ok(
                    Self::create_transfer_steps(
                        accounts[1].key,
                        data,
                        bump,
                        system_create_account_instruction(
                            accounts[1].key@,
                            accounts[0].key@,
                            lamports,
                            TRANSFER_DATA_LEN as u64,
                            program_id@,
                        ),
                    ),
                ),
            },
        }
    }

    /// Runs the checks of a native deposit on accounts `[escrow, sender,
    /// receiver, system program]`, given what the derivation from the seeds
    /// `["sol", sender]` found.
    pub fn check_create_transfer(
        accounts: &[Account],
        data: &TransferInput,
        found: Option<(Pubkey, u8)>,
    ) -> (checked: Result<u8, ProgramFailure>)
        ensures
            checked == Self::create_transfer_check(accounts@, *data, found),
    {
        if accounts.len() < 4 {
            return Err(ProgramFailure::NotEnoughAccountKeys);
        }
        if !accounts[1].is_signer {
            return Err(ProgramFailure::MissingRequiredSignature);
        }
        if accounts[2].key != data.receiver {
            return Err(ProgramFailure::InvalidAccountData);
        }
        match found {
            None => Err(ProgramFailure::InvalidSeeds),
            Some((address, bump)) => {
                if address != accounts[0].key {
                    Err(ProgramFailure::InvalidAccountData)
                } else {
                    Ok(bump)
                }
            },
        }
    }

    /// The steps of a native deposit by `sender` whose checks passed.
    pub fn plan_create_transfer(
        sender: &Pubkey,
        data: &TransferInput,
        bump: u8,
        instruction: Instruction,
    ) -> (steps: Vec<Step>)
        ensures
            steps_view(steps@) == Self::create_transfer_steps(*sender, *data, bump, instruction@),
    {
        let record = TransferData::new(*data, *sender);
        let mut steps: Vec<Step> = Vec::new();
        steps.push(
            Step::InvokeSigned {
                instruction,
                accounts: indices(&[1, 0, 3]),
                seeds: signing_seeds(sender, bump),
            },
        );
        steps.push(Step::Store { account: 0, bytes: record.to_vec() });
        proof {
            assert(record == Self::create_transfer_record(*sender, *data));
            assert(steps_view(steps@) =~= Self::create_transfer_steps(
                *sender,
                *data,
                bump,
                instruction@,
            ));
        }
        steps
    }

    /// Handles a native deposit. `rent_minimum` is the host's rent-exempt
    /// minimum for an account of [`TRANSFER_DATA_LEN`] bytes, or the error of
    /// reading it.
    pub fn process_create_transfer(
        program_id: &Pubkey,
        accounts: &[Account],
        data: TransferInput,
        rent_minimum: Result<u64, solana_program::program_error::ProgramError>,
    ) -> (outcome: Result<Vec<Step>, ProgramFailure>)
        ensures
            outcome_view(outcome) == Self::create_transfer_outcome(
                *program_id,
                accounts@,
                data,
                rent_minimum,
            ),
    {
        if accounts.len() < 4 {
            return Err(ProgramFailure::NotEnoughAccountKeys);
        }
        let sender = accounts[1].key;
        let found = find_deposit_address(PREFIX, &sender, program_id);
        let bump = match Self::check_create_transfer(accounts, &data, found) {
            Ok(bump) => bump,
            Err(e) => {
                return Err(e);
            },
        };
        let lamports = match rent_minimum {
            Ok(lamports) => lamports,
            Err(e) => {
                return Err(ProgramFailure::Host(e));
            },
        };
        let instruction = system_create_account(
            &sender,
            &accounts[0].key,
            lamports,
            TRANSFER_DATA_LEN as u64,
            program_id,
        );
        Ok(Self::plan_create_transfer(&sender, &data, bump, instruction))
    }

    // ---------------------------------------------------------------------
    // Native withdrawal
    // ---------------------------------------------------------------------

    /// The checks of a native withdrawal, in order, given what the derivation
    /// for the sender found and what reading the clock gave. On success, the
    /// bump seed.
    pub open spec fn withdraw_check(
        accounts: Seq<Account>,
        found: Option<(Pubkey, u8)>,
        clock: Result<i64, solana_program::program_error::ProgramError>,
    ) -> Result<u8, ProgramFailure> {
        if accounts.len() < 4 {
            Err(ProgramFailure::NotEnoughAccountKeys)
        } else {
            match TransferData::decode(accounts[0].data@) {
                Err(_) => Err(ProgramFailure::BorshIoError),
                Ok(record) => if accounts[2].key != record.receiver {
                    Err(ProgramFailure::IllegalOwner)
                } else if !accounts[2].is_signer {
                    Err(ProgramFailure::MissingRequiredSignature)
                } else {
                    match found {
                        None => Err(ProgramFailure::InvalidSeeds),
                        Some((address, bump)) => if address != accounts[0].key {
                            Err(ProgramFailure::InvalidAccountData)
                        } else {
                            match clock {
                                Err(e) => Err(ProgramFailure::Host(e)),
                                Ok(now) => if !time_lock_over(record.start_time, now) {
                                    Err(
                                        ProgramFailure::Custom(
                                            EscrowError::WithdrawTimeLimitNotExceeded.code(),
                                        ),
                                    )
                                } else {
                                    Ok(bump)
                                },
                            }
                        },
                    }
                },
            }
        }
    }

    /// The one step of a native withdrawal: the transfer by `instruction`,
    /// signed for the sender's escrow.
    pub open spec fn withdraw_steps(
        sender: Pubkey,
        bump: u8,
        instruction: (Seq<u8>, Seq<(Seq<u8>, bool, bool)>, Seq<u8>),
    ) -> Seq<StepView> {
        seq![
            StepView::InvokeSigned {
                instruction,
                accounts: seq![1usize, 2usize, 3usize],
                seeds: signer_seeds(sender, bump),
            },
        ]
    }

    /// What a native withdrawal answers, given what reading the clock gave:
    /// the first failing check's error, else the system program's transfer of
    /// the amount asked for from the sender to the receiver. The transfer's
    /// source is the sender account, not the escrow account.
    pub open spec fn withdraw_outcome(
        program_id: Pubkey,
        accounts: Seq<Account>,
        data: WithdrawInput,
        clock: Result<i64, solana_program::program_error::ProgramError>,
    ) -> Result<Seq<StepView>, ProgramFailure> {
        match Self::withdraw_check(
            accounts,
            derived(withdraw_seeds(accounts[1].key), program_id),
            clock,
        ) {
            Err(e) => Err(e),
            Ok(bump) => Ok(
                Self::withdraw_steps(
                    accounts[1].key,
                    bump,
                    system_transfer_instruction(accounts[1].key@, accounts[2].key@, data.amount),
                ),
            ),
        }
    }

    /// Runs the checks of a native withdrawal on accounts `[escrow, sender,
    /// receiver, system program]`, given what the derivation from the seeds
    /// `[sender]` found and what reading the clock gave.
    pub fn check_withdraw(
        accounts: &[Account],
        found: Option<(Pubkey, u8)>,
        clock: Result<i64, solana_program::program_error::ProgramError>,
    ) -> (checked: Result<u8, ProgramFailure>)
        ensures
            checked == Self::withdraw_check(accounts@, found, clock),
    {
        if accounts.len() < 4 {
            return Err(ProgramFailure::NotEnoughAccountKeys);
        }
        let record = match TransferData::try_from_slice(accounts[0].data.as_slice()) {
            Ok(record) => record,
            Err(_) => {
                return Err(ProgramFailure::BorshIoError);
            },
        };
        if accounts[2].key != record.receiver {
            return Err(ProgramFailure::IllegalOwner);
        }
        if !accounts[2].is_signer {
            return Err(ProgramFailure::MissingRequiredSignature);
        }
        let bump = match found {
            None => {
                return Err(ProgramFailure::InvalidSeeds);
            },
            Some((address, bump)) => {
                if address != accounts[0].key {
                    return Err(ProgramFailure::InvalidAccountData);
                }
                bump
            },
        };
        match clock {
            Err(e) => Err(ProgramFailure::Host(e)),
            Ok(now) => {
                if !is_time_lock_over(record.start_time, now) {
                    Err(ProgramFailure::from(EscrowError::WithdrawTimeLimitNotExceeded))
                } else {
                    Ok(bump)
                }
            },
        }
    }

    /// The steps of a native withdrawal from the escrow of `sender` whose
    /// checks passed.
    pub fn plan_withdraw(sender: &Pubkey, bump: u8, instruction: Instruction) -> (steps: Vec<Step>)
        ensures
            steps_view(steps@) == Self::withdraw_steps(*sender, bump, instruction@),
    {
        let mut steps: Vec<Step> = Vec::new();
        steps.push(
            Step::InvokeSigned {
                instruction,
                accounts: indices(&[1, 2, 3]),
                seeds: signing_seeds(sender, bump),
            },
        );
        proof {
            assert(steps_view(steps@) =~= Self::withdraw_steps(*sender, bump, instruction@));
        }
        steps
    }

    /// Handles a native withdrawal, given what reading the clock gave.
    pub fn withdraw(
        program_id: &Pubkey,
        accounts: &[Account],
        data: WithdrawInput,
        clock: Result<i64, solana_program::program_error::ProgramError>,
    ) -> (outcome: Result<Vec<Step>, ProgramFailure>)
        ensures
            outcome_view(outcome) == Self::withdraw_outcome(*program_id, accounts@, data, clock),
    {
        if accounts.len() < 4 {
            return Err(ProgramFailure::NotEnoughAccountKeys);
        }
        let sender = accounts[1].key;
        let found = find_withdraw_address(&sender, program_id);
        let bump = match Self::check_withdraw(accounts, found, clock) {
            Ok(bump) => bump,
            Err(e) => {
                return Err(e);
            },
        };
        let instruction = system_transfer(&sender, &accounts[2].key, data.amount);
        Ok(Self::plan_withdraw(&sender, bump, instruction))
    }

    /// Handles a native withdrawal: `withdraw` at the host's clock.
    pub fn process_withdraw(program_id: &Pubkey, accounts: &[Account], data: WithdrawInput) -> (outcome:
        Result<Vec<Step>, ProgramFailure>)
        ensures
            exists|clock: Result<i64, solana_program::program_error::ProgramError>|
                outcome_view(outcome) == #[trigger] Self::withdraw_outcome(
                    *program_id,
                    accounts@,
                    data,
                    clock,
                ),
    {
        let clock = clock_unix_timestamp();
        let outcome = Self::withdraw(program_id, accounts, data, clock);
        proof {
            assert(outcome_view(outcome) == Self::withdraw_outcome(
                *program_id,
                accounts@,
                data,
                clock,
            ));
        }
        outcome
    }

    // ---------------------------------------------------------------------
    // Token deposit
    // ---------------------------------------------------------------------

    /// The checks of a token deposit, in order, given what the derivation for
    /// the sender's escrow found. On success, the bump seed.
    pub open spec fn create_token_transfer_check(
        accounts: Seq<Account>,
        found: Option<(Pubkey, u8)>,
    ) -> Result<u8, ProgramFailure> {
        if accounts.len() < 6 {
            Err(ProgramFailure::NotEnoughAccountKeys)
        } else if accounts[5].key@ != TOKEN_PROGRAM_ID@ {
            Err(ProgramFailure::IncorrectProgramId)
        } else if !accounts[1].is_signer {
            Err(ProgramFailure::MissingRequiredSignature)
        } else {
            match found {
                None => Err(ProgramFailure::InvalidSeeds),
                Some((address, bump)) => if address != accounts[0].key {
                    Err(ProgramFailure::InvalidAccountData)
                } else {
                    Ok(bump)
                },
            }
        }
    }

    /// The record that a token deposit stores: start time and amount of the
    /// payload, the address of the mint account presented, and the addresses
    /// of the sender and receiver accounts.
    pub open spec fn create_token_transfer_record(
        accounts: Seq<Account>,
        data: InitTokenInput,
    ) -> TransferToken {
        TransferToken {
            start_time: data.start_time,
            amount: data.amount,
            token_mint: accounts[4].key,
            sender: accounts[1].key,
            receiver: accounts[2].key,
        }
    }

    /// The steps of a token deposit: create the escrow account by
    /// `instruction`, signed for the sender's escrow, then store `record`.
    pub open spec fn create_token_transfer_steps(
        record: TransferToken,
        bump: u8,
        instruction: (Seq<u8>, Seq<(Seq<u8>, bool, bool)>, Seq<u8>),
    ) -> Seq<StepView> {
        seq![
            StepView::InvokeSigned {
                instruction,
                accounts: seq![1usize, 0usize, 3usize],
                seeds: signer_seeds(record.sender, bump),
            },
            StepView::Store { account: 0, bytes: record.encode() },
        ]
    }

    /// What a token deposit answers, given the host's rent-exempt minimum for
    /// an account of the payload's size, or the error of reading it: the first
    /// failing check's error; else the rent's error; else the steps, whose
    /// account creation allocates the size of the payload, owned by this
    /// program and funded by the sender with exactly that minimum.
    ///
    /// The account is sized for the 48 bytes of the payload while the record
    /// takes 112, so the host finds the second step's write too long for it.
    pub open spec fn create_token_transfer_outcome(
        program_id: Pubkey,
        accounts: Seq<Account>,
        data: InitTokenInput,
        rent_minimum: Result<u64, solana_program::program_error::ProgramError>,
    ) -> Result<Seq<StepView>, ProgramFailure> {
        match Self::create_token_transfer_check(
            accounts,
            derived(deposit_seeds(PREFIX_TOKEN.spec_bytes(), accounts[1].key), program_id),
        ) {
            Err(e) => Err(e),
            Ok(bump) => match rent_minimum {
                Err(e) => Err(ProgramFailure::Host(e)),
                Ok(lamports) => Ok(
                    Self::create_token_transfer_steps(
                        Self::create_token_transfer_record(accounts, data),
                        bump,
                        system_create_account_instruction(
                            accounts[1].key@,
                            accounts[0].key@,
                            lamports,
                            INIT_TOKEN_INPUT_LEN as u64,
                            program_id@,
                        ),
                    ),
                ),
            },
        }
    }

    /// Runs the checks of a token deposit on accounts `[escrow, sender,
    /// receiver, system program, token mint, token program]`, given what the
    /// derivation from the seeds `["token", sender]` found.
    pub fn check_create_token_transfer(accounts: &[Account], found: Option<(Pubkey, u8)>) -> (checked:
        Result<u8, ProgramFailure>)
        ensures
            checked == Self::create_token_transfer_check(accounts@, found),
    {
        if accounts.len() < 6 {
            return Err(ProgramFailure::NotEnoughAccountKeys);
        }
        let token_program = token_program_id();
        proof {
            Pubkey::lemma_view_injective(accounts[5].key, token_program);
        }
        if accounts[5].key != token_program {
            return Err(ProgramFailure::IncorrectProgramId);
        }
        if !accounts[1].is_signer {
            return Err(ProgramFailure::MissingRequiredSignature);
        }
        match found {
            None => Err(ProgramFailure::InvalidSeeds),
            Some((address, bump)) => {
                if address != accounts[0].key {
                    Err(ProgramFailure::InvalidAccountData)
                } else {
                    Ok(bump)
                }
            },
        }
    }

    /// The steps of a token deposit whose checks passed.
    pub fn plan_create_token_transfer(record: &TransferToken, bump: u8, instruction: Instruction) -> (steps:
        Vec<Step>)
        ensures
            steps_view(steps@) == Self::create_token_transfer_steps(*record, bump, instruction@),
    {
        let mut steps: Vec<Step> = Vec::new();
        steps.push(
            Step::InvokeSigned {
                instruction,
                accounts: indices(&[1, 0, 3]),
                seeds: signing_seeds(&record.sender, bump),
            },
        );
        steps.push(Step::Store { account: 0, bytes: record.to_vec() });
        proof {
            assert(steps_view(steps@) =~= Self::create_token_transfer_steps(
                *record,
                bump,
                instruction@,
            ));
        }
        steps
    }

    /// Handles a token deposit. `rent_minimum` is the host's rent-exempt
    /// minimum for an account of [`INIT_TOKEN_INPUT_LEN`] bytes, or the error
    /// of reading it.
    pub fn process_create_token_transfer(
        program_id: &Pubkey,
        accounts: &[Account],
        data: InitTokenInput,
        rent_minimum: Result<u64, solana_program::program_error::ProgramError>,
    ) -> (outcome: Result<Vec<Step>, ProgramFailure>)
        ensures
            outcome_view(outcome) == Self::create_token_transfer_outcome(
                *program_id,
                accounts@,
                data,
                rent_minimum,
            ),
    {
        if accounts.len() < 6 {
            return Err(ProgramFailure::NotEnoughAccountKeys);
        }
        let sender = accounts[1].key;
        let found = find_deposit_address(PREFIX_TOKEN, &sender, program_id);
        let bump = match Self::check_create_token_transfer(accounts, found) {
            Ok(bump) => bump,
            Err(e) => {
                return Err(e);
            },
        };
        let lamports = match rent_minimum {
            Ok(lamports) => lamports,
            Err(e) => {
                return Err(ProgramFailure::Host(e));
            },
        };
        let instruction = system_create_account(
            &sender,
            &accounts[0].key,
            lamports,
            INIT_TOKEN_INPUT_LEN as u64,
            program_id,
        );
        let record = TransferToken {
            start_time: data.start_time,
            amount: data.amount,
            token_mint: accounts[4].key,
            sender,
            receiver: accounts[2].key,
        };
        Ok(Self::plan_create_token_transfer(&record, bump, instruction))
    }

    // ---------------------------------------------------------------------
    // Token withdrawal
    // ---------------------------------------------------------------------

    /// The checks of a token withdrawal, in order, given what reading the
    /// clock gave.
    pub open spec fn withdraw_token_check(
        program_id: Pubkey,
        accounts: Seq<Account>,
        clock: Result<i64, solana_program::program_error::ProgramError>,
    ) -> Result<(), ProgramFailure> {
        if accounts.len() < 9 {
            Err(ProgramFailure::NotEnoughAccountKeys)
        } else if accounts[0].owner != program_id {
            Err(ProgramFailure::InvalidArgument)
        } else if accounts[5].key@ != TOKEN_PROGRAM_ID@ {
            Err(ProgramFailure::IncorrectProgramId)
        } else if !accounts[2].is_signer {
            Err(ProgramFailure::MissingRequiredSignature)
        } else if accounts[0].data@.len() == 0 {
            Err(ProgramFailure::UninitializedAccount)
        } else {
            match TransferToken::decode(accounts[0].data@) {
                Err(_) => Err(ProgramFailure::BorshIoError),
                Ok(record) => if record.token_mint != accounts[4].key {
                    Err(ProgramFailure::Custom(TokenError::PublicKeyMismatch.code()))
                } else if accounts[2].key != record.receiver {
                    Err(ProgramFailure::Custom(TokenError::EscrowMismatch.code()))
                } else {
                    match clock {
                        Err(e) => Err(ProgramFailure::Host(e)),
                        Ok(now) => if !time_lock_over(record.start_time, now) {
                            Err(
                                ProgramFailure::Custom(
                                    EscrowError::WithdrawTimeLimitNotExceeded.code(),
                                ),
                            )
                        } else {
                            Ok(())
                        },
                    }
                },
            }
        }
    }

    /// The steps of a token withdrawal: create the receiver's associated
    /// token account by `create`, then move the tokens by `transfer`, signed
    /// for the sender's escrow.
    pub open spec fn withdraw_token_steps(
        sender: Pubkey,
        bump: u8,
        create: (Seq<u8>, Seq<(Seq<u8>, bool, bool)>, Seq<u8>),
        transfer: (Seq<u8>, Seq<(Seq<u8>, bool, bool)>, Seq<u8>),
    ) -> Seq<StepView> {
        seq![
            StepView::Invoke {
                instruction: create,
                accounts: seq![2usize, 7usize, 2usize, 4usize, 3usize, 5usize, 8usize],
            },
            StepView::InvokeSigned {
                instruction: transfer,
                accounts: seq![5usize, 6usize, 7usize, 0usize, 3usize],
                seeds: signer_seeds(sender, bump),
            },
        ]
    }

    /// What a token withdrawal answers, given what reading the clock gave: the
    /// first failing check's error; else `InvalidSeeds` where the receiver's
    /// associated token account or the sender's escrow has no derived address;
    /// else the creation of the receiver's associated token account for the
    /// mint, funded by the receiver, and the token program's transfer of the
    /// amount asked for from the escrow's token account to the receiver's, on
    /// the authority of the escrow account.
    pub open spec fn withdraw_token_outcome(
        program_id: Pubkey,
        accounts: Seq<Account>,
        data: WithdrawTokenInput,
        clock: Result<i64, solana_program::program_error::ProgramError>,
    ) -> Result<Seq<StepView>, ProgramFailure> {
        match Self::withdraw_token_check(program_id, accounts, clock) {
            Err(e) => Err(e),
            Ok(_) => if derived(
                associated_token_seeds(accounts[2].key@, accounts[4].key@),
                associated_token_program(),
            ) is None {
                Err(ProgramFailure::InvalidSeeds)
            } else {
                match derived(withdraw_seeds(accounts[1].key), program_id) {
                    None => Err(ProgramFailure::InvalidSeeds),
                    Some((_, bump)) => Ok(
                        Self::withdraw_token_steps(
                            accounts[1].key,
                            bump,
                            associated_token_account_instruction(
                                accounts[2].key@,
                                accounts[2].key@,
                                accounts[4].key@,
                            ),
                            token_transfer_instruction(
                                accounts[5].key@,
                                accounts[6].key@,
                                accounts[7].key@,
                                accounts[0].key@,
                                seq![accounts[0].key@],
                                data.amount,
                            ),
                        ),
                    ),
                }
            },
        }
    }

    /// Runs the checks of a token withdrawal on accounts `[escrow, sender,
    /// receiver, system program, token mint, token program, escrow's token
    /// account, receiver's token account, rent sysvar]`, given what reading
    /// the clock gave.
    pub fn check_withdraw_token(
        program_id: &Pubkey,
        accounts: &[Account],
        clock: Result<i64, solana_program::program_error::ProgramError>,
    ) -> (checked: Result<(), ProgramFailure>)
        ensures
            checked == Self::withdraw_token_check(*program_id, accounts@, clock),
    {
        if accounts.len() < 9 {
            return Err(ProgramFailure::NotEnoughAccountKeys);
        }
        if accounts[0].owner != *program_id {
            return Err(ProgramFailure::InvalidArgument);
        }
        let token_program = token_program_id();
        proof {
            Pubkey::lemma_view_injective(accounts[5].key, token_program);
        }
        if accounts[5].key != token_program {
            return Err(ProgramFailure::IncorrectProgramId);
        }
        if !accounts[2].is_signer {
            return Err(ProgramFailure::MissingRequiredSignature);
        }
        if accounts[0].data.len() == 0 {
            return Err(ProgramFailure::UninitializedAccount);
        }
        let record = match TransferToken::try_from_slice(accounts[0].data.as_slice()) {
            Ok(record) => record,
            Err(_) => {
                return Err(ProgramFailure::BorshIoError);
            },
        };
        if record.token_mint != accounts[4].key {
            return Err(ProgramFailure::from(TokenError::PublicKeyMismatch));
        }
        if accounts[2].key != record.receiver {
            return Err(ProgramFailure::from(TokenError::EscrowMismatch));
        }
        match clock {
            Err(e) => Err(ProgramFailure::Host(e)),
            Ok(now) => {
                if !is_time_lock_over(record.start_time, now) {
                    Err(ProgramFailure::from(EscrowError::WithdrawTimeLimitNotExceeded))
                } else {
                    Ok(())
                }
            },
        }
    }

    /// The steps of a token withdrawal from the escrow of `sender` whose
    /// checks passed.
    pub fn plan_withdraw_token(
        sender: &Pubkey,
        bump: u8,
        create: Instruction,
        transfer: Instruction,
    ) -> (steps: Vec<Step>)
        ensures
            steps_view(steps@) == Self::withdraw_token_steps(*sender, bump, create@, transfer@),
    {
        let mut steps: Vec<Step> = Vec::new();
        steps.push(Step::Invoke { instruction: create, accounts: indices(&[2, 7, 2, 4, 3, 5, 8]) });
        steps.push(
            Step::InvokeSigned {
                instruction: transfer,
                accounts: indices(&[5, 6, 7, 0, 3]),
                seeds: signing_seeds(sender, bump),
            },
        );
        proof {
            assert(steps_view(steps@) =~= Self::withdraw_token_steps(
                *sender,
                bump,
                create@,
                transfer@,
            ));
        }
        steps
    }

    /// Handles a token withdrawal, given what reading the clock gave.
    pub fn withdraw_token(
        program_id: &Pubkey,
        accounts: &[Account],
        data: WithdrawTokenInput,
        clock: Result<i64, solana_program::program_error::ProgramError>,
    ) -> (outcome: Result<Vec<Step>, ProgramFailure>)
        ensures
            outcome_view(outcome) == Self::withdraw_token_outcome(
                *program_id,
                accounts@,
                data,
                clock,
            ),
    {
        match Self::check_withdraw_token(program_id, accounts, clock) {
            Ok(_) => {},
            Err(e) => {
                return Err(e);
            },
        }
        let sender = accounts[1].key;
        let receiver = accounts[2].key;
        let mint = accounts[4].key;
        let escrow = accounts[0].key;
        let token_program = token_program_id();
        let associated_program = associated_token_program_id();
        let mut seeds: Vec<Vec<u8>> = Vec::new();
        seeds.push(receiver.to_vec());
        seeds.push(token_program.to_vec());
        seeds.push(mint.to_vec());
        proof {
            assert(seeds.deep_view() =~~= associated_token_seeds(receiver@, mint@));
            assert(associated_program@ == associated_token_program()@);
        }
        if find_program_address(&seeds, &associated_program).is_none() {
            return Err(ProgramFailure::InvalidSeeds);
        }
        let create = create_associated_token_account(&receiver, &receiver, &mint);
        let bump = match find_withdraw_address(&sender, program_id) {
            None => {
                return Err(ProgramFailure::InvalidSeeds);
            },
            Some((_, bump)) => bump,
        };
        let mut signers: Vec<Pubkey> = Vec::new();
        signers.push(escrow);
        proof {
            assert(keys_view(signers@) =~= seq![escrow@]);
        }
        let transfer = match token_transfer(
            &accounts[5].key,
            &accounts[6].key,
            &accounts[7].key,
            &escrow,
            &signers,
            data.amount,
        ) {
            Ok(transfer) => transfer,
            Err(e) => {
                return Err(ProgramFailure::Host(e));
            },
        };
        Ok(Self::plan_withdraw_token(&sender, bump, create, transfer))
    }

    /// Handles a token withdrawal: `withdraw_token` at the host's clock.
    pub fn process_withdraw_token(
        program_id: &Pubkey,
        accounts: &[Account],
        data: WithdrawTokenInput,
    ) -> (outcome: Result<Vec<Step>, ProgramFailure>)
        ensures
            exists|clock: Result<i64, solana_program::program_error::ProgramError>|
                outcome_view(outcome) == #[trigger] Self::withdraw_token_outcome(
                    *program_id,
                    accounts@,
                    data,
                    clock,
                ),
    {
        let clock = clock_unix_timestamp();
        let outcome = Self::withdraw_token(program_id, accounts, data, clock);
        proof {
            assert(outcome_view(outcome) == Self::withdraw_token_outcome(
                *program_id,
                accounts@,
                data,
                clock,
            ));
        }
        outcome
    }

    // ---------------------------------------------------------------------
    // Entry
    // ---------------------------------------------------------------------

    /// The size of the account that an instruction asks the host to create:
    /// the record's size for a native deposit, the payload's size for a token
    /// deposit, and none for a withdrawal or for data that do not decode.
    pub open spec fn space_created(instruction_data: Seq<u8>) -> Option<usize> {
        match TransferInstruction::decode(instruction_data) {
            Ok(TransferInstruction::CreateTransfer(_)) => Some(TRANSFER_DATA_LEN),
            Ok(TransferInstruction::InitTokenTransfer(_)) => Some(INIT_TOKEN_INPUT_LEN),
            _ => None,
        }
    }

    /// The size of the account that the instruction asks the host to create,
    /// which is the size to ask the host's rent for.
    pub fn account_space(instruction_data: &[u8]) -> (space: Option<usize>)
        ensures
            space == Self::space_created(instruction_data@),
    {
        match TransferInstruction::unpack(instruction_data) {
            Ok(TransferInstruction::CreateTransfer(_)) => Some(TRANSFER_DATA_LEN),
            Ok(TransferInstruction::InitTokenTransfer(_)) => Some(INIT_TOKEN_INPUT_LEN),
            _ => None,
        }
    }

    /// What the program answers to an instruction, given what reading the
    /// clock gave and the host's rent-exempt minimum for the account that the
    /// instruction creates: invalid instruction data where the data do not
    /// decode, else what the handler of the operation answers. A deposit looks
    /// at the rent only, a withdrawal at the clock only.
    pub open spec fn process_outcome(
        program_id: Pubkey,
        accounts: Seq<Account>,
        instruction_data: Seq<u8>,
        clock: Result<i64, solana_program::program_error::ProgramError>,
        rent_minimum: Result<u64, solana_program::program_error::ProgramError>,
    ) -> Result<Seq<StepView>, ProgramFailure> {
        match TransferInstruction::decode(instruction_data) {
            Err(e) => Err(e),
            Ok(TransferInstruction::CreateTransfer(data)) => Self::create_transfer_outcome(
                program_id,
                accounts,
                data,
                rent_minimum,
            ),
            Ok(TransferInstruction::Withdraw(data)) => Self::withdraw_outcome(
                program_id,
                accounts,
                data,
                clock,
            ),
            Ok(TransferInstruction::InitTokenTransfer(data)) => Self::create_token_transfer_outcome(
                program_id,
                accounts,
                data,
                rent_minimum,
            ),
            Ok(TransferInstruction::WithdrawToken(data)) => Self::withdraw_token_outcome(
                program_id,
                accounts,
                data,
                clock,
            ),
        }
    }

    /// Handles one instruction, given what reading the clock gave and the
    /// host's rent-exempt minimum for [`Processor::account_space`] bytes:
    /// decodes it and hands it to its handler.
    pub fn process_with_sysvars(
        program_id: &Pubkey,
        accounts: &[Account],
        instruction_data: &[u8],
        clock: Result<i64, solana_program::program_error::ProgramError>,
        rent_minimum: Result<u64, solana_program::program_error::ProgramError>,
    ) -> (outcome: Result<Vec<Step>, ProgramFailure>)
        ensures
            outcome_view(outcome) == Self::process_outcome(
                *program_id,
                accounts@,
                instruction_data@,
                clock,
                rent_minimum,
            ),
    {
        let instruction = match TransferInstruction::unpack(instruction_data) {
            Ok(instruction) => instruction,
            Err(e) => {
                return Err(e);
            },
        };
        match instruction {
            TransferInstruction::CreateTransfer(data) => {
                Self::process_create_transfer(program_id, accounts, data, rent_minimum)
            },
            TransferInstruction::Withdraw(data) => {
                Self::withdraw(program_id, accounts, data, clock)
            },
            TransferInstruction::InitTokenTransfer(data) => {
                Self::process_create_token_transfer(program_id, accounts, data, rent_minimum)
            },
            TransferInstruction::WithdrawToken(data) => {
                Self::withdraw_token(program_id, accounts, data, clock)
            },
        }
    }

    /// Handles one instruction: decodes it and hands it to its handler. A
    /// withdrawal reads the clock from the host. `rent_minimum` is the host's
    /// rent-exempt minimum for [`Processor::account_space`] bytes, or the
    /// error of reading it; a withdrawal does not look at it.
    pub fn process(
        program_id: &Pubkey,
        accounts: &[Account],
        instruction_data: &[u8],
        rent_minimum: Result<u64, solana_program::program_error::ProgramError>,
    ) -> (outcome: Result<Vec<Step>, ProgramFailure>)
        ensures
            exists|clock: Result<i64, solana_program::program_error::ProgramError>|
                outcome_view(outcome) == #[trigger] Self::process_outcome(
                    *program_id,
                    accounts@,
                    instruction_data@,
                    clock,
                    rent_minimum,
                ),
    {
        let ghost no_clock = Err::<i64, solana_program::program_error::ProgramError>(arbitrary());
        let instruction = match TransferInstruction::unpack(instruction_data) {
            Ok(instruction) => instruction,
            Err(e) => {
                proof {
                    assert(outcome_view(Err::<Vec<Step>, ProgramFailure>(e))
                        == Self::process_outcome(
                        *program_id,
                        accounts@,
                        instruction_data@,
                        no_clock,
                        rent_minimum,
                    ));
                }
                return Err(e);
            },
        };
        match instruction {
            TransferInstruction::CreateTransfer(data) => {
                let outcome = Self::process_create_transfer(
                    program_id,
                    accounts,
                    data,
                    rent_minimum,
                );
                proof {
                    assert(outcome_view(outcome) == Self::process_outcome(
                        *program_id,
                        accounts@,
                        instruction_data@,
                        no_clock,
                        rent_minimum,
                    ));
                }
                outcome
            },
            TransferInstruction::Withdraw(data) => {
                let outcome = Self::process_withdraw(program_id, accounts, data);
                proof {
                    let clock = choose|clock: Result<i64, solana_program::program_error::ProgramError>|
                        outcome_view(outcome) == Self::withdraw_outcome(
                            *program_id,
                            accounts@,
                            data,
                            clock,
                        );
                    assert(outcome_view(outcome) == Self::process_outcome(
                        *program_id,
                        accounts@,
                        instruction_data@,
                        clock,
                        rent_minimum,
                    ));
                }
                outcome
            },
            TransferInstruction::InitTokenTransfer(data) => {
                let outcome = Self::process_create_token_transfer(
                    program_id,
                    accounts,
                    data,
                    rent_minimum,
                );
                proof {
                    assert(outcome_view(outcome) == Self::process_outcome(
                        *program_id,
                        accounts@,
                        instruction_data@,
                        no_clock,
                        rent_minimum,
                    ));
                }
                outcome
            },
            TransferInstruction::WithdrawToken(data) => {
                let outcome = Self::process_withdraw_token(program_id, accounts, data);
                proof {
                    let clock = choose|clock: Result<i64, solana_program::program_error::ProgramError>|
                        outcome_view(outcome) == Self::withdraw_token_outcome(
                            *program_id,
                            accounts@,
                            data,
                            clock,
                        );
                    assert(outcome_view(outcome) == Self::process_outcome(
                        *program_id,
                        accounts@,
                        instruction_data@,
                        clock,
                        rent_minimum,
                    ));
                }
                outcome
            },
        }
    }

    /// Carries out a `Store` step on the data region of the account that it
    /// names: writes `bytes` over the front of `data`, as far as `data` has
    /// room, and fails where `data` is too short to take all of them.
    pub fn store(data: &mut [u8], bytes: &[u8]) -> (done: Result<(), ProgramFailure>)
        ensures
            final(data)@ == overwritten(old(data)@, bytes@),
            done == (if bytes@.len() <= old(data)@.len() {
                Ok::<(), ProgramFailure>(())
            } else {
                Err::<(), ProgramFailure>(ProgramFailure::BorshIoError)
            }),
    {
        match write_front(data, bytes) {
            Ok(_) => Ok(()),
            Err(_) => Err(ProgramFailure::BorshIoError),
        }
    }

    // ---------------------------------------------------------------------
    // What the handlers guarantee
    // ---------------------------------------------------------------------

    /// The accounts of a native withdrawal are in order: the escrow account
    /// holds `record`, the receiver account is the recorded receiver and has
    /// signed, and the escrow account is at the address derived for the sender
    /// with bump seed `bump`.
    pub open spec fn withdraw_accounts_in_order(
        program_id: Pubkey,
        accounts: Seq<Account>,
        record: TransferData,
        bump: u8,
    ) -> bool {
        &&& accounts.len() >= 4
        &&& TransferData::decode(accounts[0].data@) == Ok::<TransferData, CodecError>(
            record,
        )
        &&& accounts[2].key == record.receiver
        &&& accounts[2].is_signer
        &&& derived(withdraw_seeds(accounts[1].key), program_id) == Some((accounts[0].key, bump))
    }

    /// The accounts of a token withdrawal are in order: the escrow account is
    /// owned by the program and holds `record`, the token program is the
    /// canonical one, the receiver account is the recorded receiver and has
    /// signed, and the mint account is the recorded mint.
    pub open spec fn withdraw_token_accounts_in_order(
        program_id: Pubkey,
        accounts: Seq<Account>,
        record: TransferToken,
    ) -> bool {
        &&& accounts.len() >= 9
        &&& accounts[0].owner == program_id
        &&& accounts[5].key@ == TOKEN_PROGRAM_ID@
        &&& accounts[2].is_signer
        &&& TransferToken::decode(accounts[0].data@) == Ok::<
            TransferToken,
            CodecError,
        >(record)
        &&& record.token_mint == accounts[4].key
        &&& accounts[2].key == record.receiver
    }

    /// A native deposit that names a receiver account other than the
    /// payload's receiver fails, whatever else holds, and so stores nothing.
    /// Where four accounts are named and the sender has signed, the failure is
    /// `InvalidAccountData`.
    pub proof fn lemma_wrong_receiver_fails(
        program_id: Pubkey,
        accounts: Seq<Account>,
        data: TransferInput,
        rent_minimum: Result<u64, solana_program::program_error::ProgramError>,
    )
        requires
            accounts.len() >= 3,
            accounts[2].key != data.receiver,
        ensures
            Self::create_transfer_outcome(program_id, accounts, data, rent_minimum) is Err,
            accounts.len() >= 4 && accounts[1].is_signer ==> Self::create_transfer_outcome(
                program_id,
                accounts,
                data,
                rent_minimum,
            ) == Err::<Seq<StepView>, ProgramFailure>(ProgramFailure::InvalidAccountData),
    {
    }

    /// A native deposit that succeeds asks first for the creation of the
    /// escrow account: by the system program, paid by the sender, both sender
    /// and escrow named as signers, with the size of the record, this program
    /// as owner and exactly the rent-exempt minimum handed in; the accounts
    /// handed to the call are sender, escrow and system program, and the
    /// program signs with the sender's address and the bump seed.
    pub proof fn lemma_deposit_creates_account(
        program_id: Pubkey,
        accounts: Seq<Account>,
        data: TransferInput,
        rent_minimum: Result<u64, solana_program::program_error::ProgramError>,
    )
        requires
            Self::create_transfer_outcome(program_id, accounts, data, rent_minimum) is Ok,
        ensures
            accounts.len() >= 4,
            rent_minimum is Ok,
            derived(deposit_seeds(PREFIX.spec_bytes(), accounts[1].key), program_id) is Some,
            Self::create_transfer_outcome(program_id, accounts, data, rent_minimum)->Ok_0[0]
                == (StepView::InvokeSigned {
                instruction: (
                    SYSTEM_PROGRAM_ID@,
                    seq![(accounts[1].key@, true, true), (accounts[0].key@, true, true)],
                    system_create_account_data(
                        accounts[1].key@,
                        accounts[0].key@,
                        rent_minimum->Ok_0,
                        80,
                        program_id@,
                    ),
                ),
                accounts: seq![1usize, 0usize, 3usize],
                seeds: signer_seeds(
                    accounts[1].key,
                    derived(
                        deposit_seeds(PREFIX.spec_bytes(), accounts[1].key),
                        program_id,
                    )->Some_0.1,
                ),
            }),
    {
    }

    /// A native deposit that succeeds stores, as its last step, a record in
    /// the escrow account that reads back with the payload's start time,
    /// receiver and amount and with the sender account's address. An escrow
    /// account of the record's size then holds exactly that record.
    pub proof fn lemma_deposit_stores_record(
        program_id: Pubkey,
        accounts: Seq<Account>,
        data: TransferInput,
        rent_minimum: Result<u64, solana_program::program_error::ProgramError>,
        allocated: Seq<u8>,
    )
        requires
            Self::create_transfer_outcome(program_id, accounts, data, rent_minimum) is Ok,
            allocated.len() == TRANSFER_DATA_LEN,
        ensures
            accounts.len() >= 4,
            Self::create_transfer_outcome(program_id, accounts, data, rent_minimum)->Ok_0.len()
                == 2,
            Self::create_transfer_outcome(program_id, accounts, data, rent_minimum)->Ok_0[1]
                matches StepView::Store { account, bytes } && account == 0 && TransferData::decode(
                bytes,
            ) == Ok::<TransferData, CodecError>(
                TransferData {
                    start_time: data.start_time,
                    receiver: data.receiver,
                    amount_to_send: data.amount_to_send,
                    sender: accounts[1].key,
                },
            ) && TransferData::decode(overwritten(allocated, bytes)) == Ok::<
                TransferData,
                CodecError,
            >(
                TransferData {
                    start_time: data.start_time,
                    receiver: data.receiver,
                    amount_to_send: data.amount_to_send,
                    sender: accounts[1].key,
                },
            ),
    {
        let record = Self::create_transfer_record(accounts[1].key, data);
        TransferData::lemma_round_trip(record);
        assert(overwritten(allocated, record.encode()) =~= record.encode());
    }

    /// Two deposits on equal program, accounts, payload and rent-exempt
    /// minimum answer alike: the same error, or the same calls with the same
    /// signer seeds and the same bytes to store.
    pub proof fn lemma_equal_deposits_answer_alike(
        program_id: Pubkey,
        accounts: Seq<Account>,
        data: TransferInput,
        rent_minimum: Result<u64, solana_program::program_error::ProgramError>,
        first: Result<Vec<Step>, ProgramFailure>,
        second: Result<Vec<Step>, ProgramFailure>,
    )
        requires
            outcome_view(first) == Self::create_transfer_outcome(
                program_id,
                accounts,
                data,
                rent_minimum,
            ),
            outcome_view(second) == Self::create_transfer_outcome(
                program_id,
                accounts,
                data,
                rent_minimum,
            ),
        ensures
            outcome_view(first) == outcome_view(second),
    {
    }

    /// Before the time lock is over, a native withdrawal fails at every
    /// clock; with the accounts in order it fails with the time-lock error,
    /// custom error 0.
    pub proof fn lemma_early_withdraw_fails(
        program_id: Pubkey,
        accounts: Seq<Account>,
        data: WithdrawInput,
        record: TransferData,
        now: i64,
    )
        requires
            accounts.len() >= 4,
            TransferData::decode(accounts[0].data@) == Ok::<TransferData, CodecError>(
                record,
            ),
            now < record.start_time + TIME_LOCK_SECONDS,
        ensures
            Self::withdraw_outcome(
                program_id,
                accounts,
                data,
                Ok::<i64, solana_program::program_error::ProgramError>(now),
            ) is Err,
            forall|bump: u8|
                Self::withdraw_accounts_in_order(program_id, accounts, record, bump)
                    ==> Self::withdraw_outcome(
                    program_id,
                    accounts,
                    data,
                    Ok::<i64, solana_program::program_error::ProgramError>(now),
                ) == Err::<Seq<StepView>, ProgramFailure>(ProgramFailure::Custom(0)),
    {
    }

    /// Once the time lock is over, a native withdrawal with its accounts in
    /// order succeeds: it answers the signed transfer of the amount asked for
    /// from the sender to the receiver.
    pub proof fn lemma_withdraw_after_lock(
        program_id: Pubkey,
        accounts: Seq<Account>,
        data: WithdrawInput,
        record: TransferData,
        bump: u8,
        now: i64,
    )
        requires
            Self::withdraw_accounts_in_order(program_id, accounts, record, bump),
            now >= record.start_time + TIME_LOCK_SECONDS,
        ensures
            Self::withdraw_outcome(
                program_id,
                accounts,
                data,
                Ok::<i64, solana_program::program_error::ProgramError>(now),
            ) == Ok::<Seq<StepView>, ProgramFailure>(
                Self::withdraw_steps(
                    accounts[1].key,
                    bump,
                    system_transfer_instruction(accounts[1].key@, accounts[2].key@, data.amount),
                ),
            ),
    {
    }

    /// Before the time lock is over, a token withdrawal fails at every clock;
    /// with the accounts in order it fails with the time-lock error, custom
    /// error 0.
    pub proof fn lemma_early_withdraw_token_fails(
        program_id: Pubkey,
        accounts: Seq<Account>,
        data: WithdrawTokenInput,
        record: TransferToken,
        now: i64,
    )
        requires
            accounts.len() >= 9,
            TransferToken::decode(accounts[0].data@) == Ok::<
                TransferToken,
                CodecError,
            >(record),
            now < record.start_time + TIME_LOCK_SECONDS,
        ensures
            Self::withdraw_token_outcome(
                program_id,
                accounts,
                data,
                Ok::<i64, solana_program::program_error::ProgramError>(now),
            ) is Err,
            Self::withdraw_token_accounts_in_order(program_id, accounts, record)
                ==> Self::withdraw_token_outcome(
                program_id,
                accounts,
                data,
                Ok::<i64, solana_program::program_error::ProgramError>(now),
            ) == Err::<Seq<StepView>, ProgramFailure>(ProgramFailure::Custom(0)),
    {
    }

    /// Once the time lock is over, a token withdrawal with its accounts in
    /// order passes every check, and succeeds wherever the receiver's
    /// associated token account and the sender's escrow have derived
    /// addresses.
    pub proof fn lemma_withdraw_token_after_lock(
        program_id: Pubkey,
        accounts: Seq<Account>,
        data: WithdrawTokenInput,
        record: TransferToken,
        now: i64,
    )
        requires
            Self::withdraw_token_accounts_in_order(program_id, accounts, record),
            now >= record.start_time + TIME_LOCK_SECONDS,
        ensures
            Self::withdraw_token_check(
                program_id,
                accounts,
                Ok::<i64, solana_program::program_error::ProgramError>(now),
            ) == Ok::<(), ProgramFailure>(()),
            derived(
                associated_token_seeds(accounts[2].key@, accounts[4].key@),
                associated_token_program(),
            ) is Some && derived(withdraw_seeds(accounts[1].key), program_id) is Some
                ==> Self::withdraw_token_outcome(
                program_id,
                accounts,
                data,
                Ok::<i64, solana_program::program_error::ProgramError>(now),
            ) is Ok,
    {
    }

    /// A token withdrawal that presents a mint account other than the
    /// recorded mint, with the checks before that one passing, fails with the
    /// mismatch error, custom error 1, at every clock.
    pub proof fn lemma_mint_mismatch_fails(
        program_id: Pubkey,
        accounts: Seq<Account>,
        data: WithdrawTokenInput,
        record: TransferToken,
        clock: Result<i64, solana_program::program_error::ProgramError>,
    )
        requires
            accounts.len() >= 9,
            accounts[0].owner == program_id,
            accounts[5].key@ == TOKEN_PROGRAM_ID@,
            accounts[2].is_signer,
            TransferToken::decode(accounts[0].data@) == Ok::<
                TransferToken,
                CodecError,
            >(record),
            record.token_mint != accounts[4].key,
        ensures
            Self::withdraw_token_outcome(program_id, accounts, data, clock) == Err::<
                Seq<StepView>,
                ProgramFailure,
            >(ProgramFailure::Custom(1)),
    {
    }

    /// A token deposit that succeeds asks first for an account of the
    /// payload's size funded with exactly the rent-exempt minimum handed in,
    /// and stores, as its last step, a record in the escrow account that
    /// reads back with the payload's start time and amount and with the
    /// addresses of the mint, sender and receiver accounts. The record is
    /// longer than the account that the first step sizes.
    pub proof fn lemma_token_deposit_stores_record(
        program_id: Pubkey,
        accounts: Seq<Account>,
        data: InitTokenInput,
        rent_minimum: Result<u64, solana_program::program_error::ProgramError>,
    )
        requires
            Self::create_token_transfer_outcome(program_id, accounts, data, rent_minimum) is Ok,
        ensures
            accounts.len() >= 6,
            rent_minimum is Ok,
            Self::create_token_transfer_outcome(
                program_id,
                accounts,
                data,
                rent_minimum,
            )->Ok_0.len() == 2,
            Self::create_token_transfer_outcome(program_id, accounts, data, rent_minimum)->Ok_0[0]
                matches StepView::InvokeSigned { instruction, .. } && instruction
                == system_create_account_instruction(
                accounts[1].key@,
                accounts[0].key@,
                rent_minimum->Ok_0,
                48,
                program_id@,
            ),
            Self::create_token_transfer_outcome(program_id, accounts, data, rent_minimum)->Ok_0[1]
                matches StepView::Store { account, bytes } && account == 0 && bytes.len()
                > INIT_TOKEN_INPUT_LEN && TransferToken::decode(bytes) == Ok::<
                TransferToken,
                CodecError,
            >(
                TransferToken {
                    start_time: data.start_time,
                    amount: data.amount,
                    token_mint: accounts[4].key,
                    sender: accounts[1].key,
                    receiver: accounts[2].key,
                },
            ),
    {
        TransferToken::lemma_round_trip(Self::create_token_transfer_record(accounts, data));
    }

    /// Whether `step` writes to an account.
    pub open spec fn is_store(step: StepView) -> bool {
        step is Store
    }

    /// Only deposits write: no step of a withdrawal stores anything, at any
    /// clock.
    pub proof fn lemma_withdrawals_store_nothing(
        program_id: Pubkey,
        accounts: Seq<Account>,
        native: WithdrawInput,
        token: WithdrawTokenInput,
        clock: Result<i64, solana_program::program_error::ProgramError>,
    )
        ensures
            Self::withdraw_outcome(program_id, accounts, native, clock) matches Ok(steps)
                ==> forall|i: int| 0 <= i < steps.len() ==> !Self::is_store(#[trigger] steps[i]),
            Self::withdraw_token_outcome(program_id, accounts, token, clock) matches Ok(steps)
                ==> forall|i: int| 0 <= i < steps.len() ==> !Self::is_store(#[trigger] steps[i]),
    {
    }
}

} // verus!
