//! What the program reads of the accounts of a transaction, and the steps that
//! it asks the host to carry out.

use crate::pubkey::Pubkey;
use vstd::prelude::*;

verus! {

/// What the program reads of one account that an instruction names.
#[derive(Clone, Debug, PartialEq, Eq)]
pub struct Account {
    /// The account's address.
    pub key: Pubkey,
    /// The program that owns the account.
    pub owner: Pubkey,
    /// Whether the account signed the transaction.
    pub is_signer: bool,
    /// The account's data region.
    pub data: Vec<u8>,
}

/// One account as an inner instruction names it.
#[derive(Clone, Copy, Debug, PartialEq, Eq)]
pub struct AccountMeta {
    /// The account's address.
    pub pubkey: Pubkey,
    /// Whether the inner instruction requires its signature.
    pub is_signer: bool,
    /// Whether the inner instruction may change it.
    pub is_writable: bool,
}

/// An instruction for another program.
#[derive(Clone, Debug, PartialEq, Eq)]
pub struct Instruction {
    /// The program to call.
    pub program_id: Pubkey,
    /// The accounts that the call names, in order.
    pub accounts: Vec<AccountMeta>,
    /// The call's instruction data.
    pub data: Vec<u8>,
}

impl View for AccountMeta {
    type V = (Seq<u8>, bool, bool);

    open spec fn view(&self) -> (Seq<u8>, bool, bool) {
        (self.pubkey@, self.is_signer, self.is_writable)
    }
}

impl View for Instruction {
    type V = (Seq<u8>, Seq<(Seq<u8>, bool, bool)>, Seq<u8>);

    /// The program's address, the accounts as (address, signer, writable), and
    /// the data.
    open spec fn view(&self) -> (Seq<u8>, Seq<(Seq<u8>, bool, bool)>, Seq<u8>) {
        (self.program_id@, self.accounts@.map_values(|m: AccountMeta| m@), self.data@)
    }
}

/// One thing that the host is asked to do for a transaction. The steps of a
/// transaction are carried out in order; the first that fails aborts the
/// transaction with its error.
#[derive(Clone, Debug, PartialEq, Eq)]
pub enum Step {
    /// Call another program under the signatures of the transaction.
    Invoke {
        /// The call.
        instruction: Instruction,
        /// Which accounts of the transaction are handed to the call, by index.
        accounts: Vec<usize>,
    },
    /// Call another program, signing as the address that this program derives
    /// from `seeds`.
    InvokeSigned {
        /// The call.
        instruction: Instruction,
        /// Which accounts of the transaction are handed to the call, by index.
        accounts: Vec<usize>,
        /// The seeds of the signing address.
        seeds: Vec<Vec<u8>>,
    },
    /// Write `bytes` over the front of an account's data region.
    Store {
        /// Which account of the transaction is written, by index.
        account: usize,
        /// What is written.
        bytes: Vec<u8>,
    },
}

/// The mathematical content of a [`Step`].
pub enum StepView {
    Invoke {
        instruction: (Seq<u8>, Seq<(Seq<u8>, bool, bool)>, Seq<u8>),
        accounts: Seq<usize>,
    },
    InvokeSigned {
        instruction: (Seq<u8>, Seq<(Seq<u8>, bool, bool)>, Seq<u8>),
        accounts: Seq<usize>,
        seeds: Seq<Seq<u8>>,
    },
    Store { account: usize, bytes: Seq<u8> },
}

impl View for Step {
    type V = StepView;

    open spec fn view(&self) -> StepView {
        match self {
            Step::Invoke { instruction, accounts } => StepView::Invoke {
                instruction: instruction@,
                accounts: accounts@,
            },
            Step::InvokeSigned { instruction, accounts, seeds } => StepView::InvokeSigned {
                instruction: instruction@,
                accounts: accounts@,
                seeds: seeds.deep_view(),
            },
            Step::Store { account, bytes } => StepView::Store { account: *account, bytes: bytes@ },
        }
    }
}

/// The mathematical content of a list of steps.
pub open spec fn steps_view(steps: Seq<Step>) -> Seq<StepView> {
    steps.map_values(|s: Step| s@)
}

} // verus!
