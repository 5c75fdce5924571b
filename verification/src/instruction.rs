//! The instructions that the program accepts and their wire format.
//!
//! An instruction is one tag byte followed by the payload of that operation.

use crate::error::ProgramFailure;
use crate::state::{InitTokenInput, TransferInput, WithdrawInput, WithdrawTokenInput};
use vstd::prelude::*;
use vstd::slice::slice_subrange;

verus! {

/// One operation of the program with its payload.
#[derive(Clone, Copy, Debug, PartialEq, Eq)]
pub enum TransferInstruction {
    /// Deposit native currency into an escrow created and funded by the sender.
    ///
    /// Accounts expected:
    ///
    /// 0. `[writable]` escrow account, which will hold the record
    /// 1. `[signer]` sender account
    /// 2. `[]` receiver account
    /// 3. `[]` system program
    CreateTransfer(TransferInput),
    /// Release native currency to the receiver.
    ///
    /// Accounts expected:
    ///
    /// 0. `[writable]` escrow account
    /// 1. `[]` sender account
    /// 2. `[signer]` receiver account
    /// 3. `[]` system program
    Withdraw(WithdrawInput),
    /// Deposit a fungible token into an escrow.
    ///
    /// Accounts expected:
    ///
    /// 0. `[writable]` escrow account, which will hold the record
    /// 1. `[signer]` sender account
    /// 2. `[]` receiver account
    /// 3. `[]` system program
    /// 4. `[]` token mint
    /// 5. `[]` token program
    InitTokenTransfer(InitTokenInput),
    /// Release a fungible token to the receiver.
    ///
    /// Accounts expected:
    ///
    /// 0. `[]` escrow account
    /// 1. `[]` sender account
    /// 2. `[signer]` receiver account
    /// 3. `[]` system program
    /// 4. `[]` token mint
    /// 5. `[]` token program
    /// 6. `[writable]` token account associated with the escrow address
    /// 7. `[writable]` token account associated with the receiver
    /// 8. `[]` rent sysvar
    WithdrawToken(WithdrawTokenInput),
}

impl TransferInstruction {
    /// The tag byte of the operation.
    pub open spec fn tag(self) -> u8 {
        match self {
            TransferInstruction::CreateTransfer(_) => 0,
            TransferInstruction::Withdraw(_) => 1,
            TransferInstruction::InitTokenTransfer(_) => 2,
            TransferInstruction::WithdrawToken(_) => 3,
        }
    }

    /// The bytes of the payload.
    pub open spec fn payload(self) -> Seq<u8> {
        match self {
            TransferInstruction::CreateTransfer(p) => p.encode(),
            TransferInstruction::Withdraw(p) => p.encode(),
            TransferInstruction::InitTokenTransfer(p) => p.encode(),
            TransferInstruction::WithdrawToken(p) => p.encode(),
        }
    }

    /// The wire form of the instruction: the tag, then the payload.
    pub open spec fn encode(self) -> Seq<u8> {
        seq![self.tag()] + self.payload()
    }

    /// The instruction that `data` is the wire form of. Empty data, an unknown
    /// tag, a payload cut short and bytes behind the payload are all invalid
    /// instruction data.
    pub open spec fn decode(data: Seq<u8>) -> Result<TransferInstruction, ProgramFailure> {
        if data.len() == 0 {
            Err(ProgramFailure::InvalidInstructionData)
        } else {
            let rest = data.subrange(1, data.len() as int);
            if data[0] == 0 {
                match TransferInput::decode(rest) {
                    Ok(p) => Ok(TransferInstruction::CreateTransfer(p)),
                    Err(_) => Err(ProgramFailure::InvalidInstructionData),
                }
            } else if data[0] == 1 {
                match WithdrawInput::decode(rest) {
                    Ok(p) => Ok(TransferInstruction::Withdraw(p)),
                    Err(_) => Err(ProgramFailure::InvalidInstructionData),
                }
            } else if data[0] == 2 {
                match InitTokenInput::decode(rest) {
                    Ok(p) => Ok(TransferInstruction::InitTokenTransfer(p)),
                    Err(_) => Err(ProgramFailure::InvalidInstructionData),
                }
            } else if data[0] == 3 {
                match WithdrawTokenInput::decode(rest) {
                    Ok(p) => Ok(TransferInstruction::WithdrawToken(p)),
                    Err(_) => Err(ProgramFailure::InvalidInstructionData),
                }
            } else {
                Err(ProgramFailure::InvalidInstructionData)
            }
        }
    }

    /// Whether `data` has a known tag and exactly the length of that
    /// operation's wire form.
    pub open spec fn well_framed(data: Seq<u8>) -> bool {
        data.len() >= 1 && (data[0] == 0 && data.len() == 49 || data[0] == 1 && data.len() == 9
            || data[0] == 2 && data.len() == 49 || data[0] == 3 && data.len() == 9)
    }

    /// Decodes the instruction held in `instruction_data`. It succeeds exactly
    /// on well-framed data.
    pub fn unpack(instruction_data: &[u8]) -> (unpacked: Result<
        TransferInstruction,
        ProgramFailure,
    >)
        ensures
            unpacked == TransferInstruction::decode(instruction_data@),
            unpacked is Ok <==> TransferInstruction::well_framed(instruction_data@),
            unpacked is Err ==> unpacked == Err::<TransferInstruction, ProgramFailure>(
                ProgramFailure::InvalidInstructionData,
            ),
    {
        let len: usize = instruction_data.len();
        if len == 0 {
            return Err(ProgramFailure::InvalidInstructionData);
        }
        let tag: u8 = instruction_data[0];
        let rest = slice_subrange(instruction_data, 1, len);
        if tag == 0 {
            match TransferInput::try_from_slice(rest) {
                Ok(p) => Ok(TransferInstruction::CreateTransfer(p)),
                Err(_) => Err(ProgramFailure::InvalidInstructionData),
            }
        } else if tag == 1 {
            match WithdrawInput::try_from_slice(rest) {
                Ok(p) => Ok(TransferInstruction::Withdraw(p)),
                Err(_) => Err(ProgramFailure::InvalidInstructionData),
            }
        } else if tag == 2 {
            match InitTokenInput::try_from_slice(rest) {
                Ok(p) => Ok(TransferInstruction::InitTokenTransfer(p)),
                Err(_) => Err(ProgramFailure::InvalidInstructionData),
            }
        } else if tag == 3 {
            match WithdrawTokenInput::try_from_slice(rest) {
                Ok(p) => Ok(TransferInstruction::WithdrawToken(p)),
                Err(_) => Err(ProgramFailure::InvalidInstructionData),
            }
        } else {
            Err(ProgramFailure::InvalidInstructionData)
        }
    }

    /// The wire form of the instruction.
    pub fn pack(&self) -> (out: Vec<u8>)
        ensures
            out@ == self.encode(),
    {
        let mut out: Vec<u8> = Vec::new();
        let mut body: Vec<u8> = match self {
            TransferInstruction::CreateTransfer(p) => {
                out.push(0);
                p.to_vec()
            },
            TransferInstruction::Withdraw(p) => {
                out.push(1);
                p.to_vec()
            },
            TransferInstruction::InitTokenTransfer(p) => {
                out.push(2);
                p.to_vec()
            },
            TransferInstruction::WithdrawToken(p) => {
                out.push(3);
                p.to_vec()
            },
        };
        out.append(&mut body);
        out
    }

    /// Unpacking the wire form of an instruction gives that instruction.
    pub proof fn lemma_round_trip(instruction: TransferInstruction)
        ensures
            TransferInstruction::decode(instruction.encode()) == Ok::<
                TransferInstruction,
                ProgramFailure,
            >(instruction),
    {
        let data = instruction.encode();
        assert(data.subrange(1, data.len() as int) =~= instruction.payload());
        match instruction {
            TransferInstruction::CreateTransfer(p) => TransferInput::lemma_round_trip(p),
            TransferInstruction::Withdraw(p) => WithdrawInput::lemma_round_trip(p),
            TransferInstruction::InitTokenTransfer(p) => InitTokenInput::lemma_round_trip(p),
            TransferInstruction::WithdrawToken(p) => WithdrawTokenInput::lemma_round_trip(p),
        }
    }
}

} // verus!
