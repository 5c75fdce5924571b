//! A time-locked, two-party escrow program for an account-based ledger runtime.
//!
//! A sender deposits native currency or a fungible token into a program-derived
//! escrow account for a named receiver; the receiver may claim it once 24 hours
//! have passed since the recorded start time.
//!
//! The library decides; it performs nothing. A handler in [`processor`] reads
//! plain values of the transaction's accounts and answers with the steps that
//! the host is to carry out, or with the error that aborts the transaction.
//!
//! # Seeds
//!
//! A deposit derives the escrow's address from a domain prefix and the
//! sender's address. A withdrawal derives from the sender's address alone, and
//! every inner call is signed with the seeds `[sender, [bump]]`. The host
//! takes a program's signature for the address that the signing seeds derive,
//! so three things follow that a caller has to know:
//!
//! - the account creation of a deposit names the prefixed address as a signer,
//!   which these signing seeds do not stand for;
//! - a native withdrawal accepts the escrow account only at the address
//!   without prefix, and its transfer draws on the sender's account, not on
//!   the escrow account;
//! - a token deposit sizes the escrow account for its 48-byte payload and then
//!   stores a 112-byte record, which does not fit.
//!
//! The handlers do exactly this and their contracts say so.

pub mod account;
pub mod address;
pub mod codec;
pub mod error;
pub mod host;
pub mod instruction;
pub mod processor;
pub mod pubkey;
pub mod state;

use vstd::prelude::*;

verus! {

/// Domain prefix of the derivation seeds of a native-currency escrow.
pub const PREFIX: &'static str = "sol";

/// Domain prefix of the derivation seeds of a fungible-token escrow.
pub const PREFIX_TOKEN: &'static str = "token";

} // verus!
