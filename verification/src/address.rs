//! Program-derived addresses of escrow accounts and the seeds that give them.

use crate::host::{derived_view, program_address, try_find_program_address};
use crate::pubkey::Pubkey;
use vstd::prelude::*;
use vstd::string::StringSliceAdditionalSpecFns;

verus! {

/// The address that the host derives for `seeds` under `program_id`, with its
/// bump seed; `None` where no bump seed gives an address.
pub open spec fn derived(seeds: Seq<Seq<u8>>, program_id: Pubkey) -> Option<(Pubkey, u8)> {
    match program_address(seeds, program_id@) {
        Some((address, bump)) => Some((Pubkey::from_seq(address), bump)),
        None => None,
    }
}

/// The seeds of the escrow account that `sender` deposits into: the domain
/// prefix (`"sol"` for a native escrow, `"token"` for a token escrow), then
/// the sender's address.
pub open spec fn deposit_seeds(prefix: Seq<u8>, sender: Pubkey) -> Seq<Seq<u8>> {
    seq![prefix, sender@]
}

/// The seeds that a withdrawal derives from: the sender's address alone. No
/// domain prefix is among them, so native and token escrows of one sender
/// share this address, and it is not the address that a deposit derives.
pub open spec fn withdraw_seeds(sender: Pubkey) -> Seq<Seq<u8>> {
    seq![sender@]
}

/// The seeds under which the program signs inner calls for the escrow of
/// `sender`: the sender's address, then the bump seed. The host takes them as
/// the signature of the address that these seeds derive; no domain prefix is
/// among them.
pub open spec fn signer_seeds(sender: Pubkey, bump: u8) -> Seq<Seq<u8>> {
    seq![sender@, seq![bump]]
}

/// Derives the address for `seeds` under `program_id`.
pub fn find_program_address(seeds: &Vec<Vec<u8>>, program_id: &Pubkey) -> (found: Option<
    (Pubkey, u8),
>)
    ensures
        found == derived(seeds.deep_view(), *program_id),
{
    let found = try_find_program_address(seeds, program_id);
    proof {
        if let Some((address, bump)) = found {
            Pubkey::lemma_from_seq_of_view(address);
        }
    }
    found
}

/// Derives the address of the escrow account that `sender` deposits into under
/// the domain `prefix`.
pub fn find_deposit_address(prefix: &str, sender: &Pubkey, program_id: &Pubkey) -> (found: Option<
    (Pubkey, u8),
>)
    ensures
        found == derived(deposit_seeds(prefix.spec_bytes(), *sender), *program_id),
{
    let mut seeds: Vec<Vec<u8>> = Vec::new();
    seeds.push(vstd::slice::slice_to_vec(prefix.as_bytes()));
    seeds.push(sender.to_vec());
    proof {
        assert(seeds.deep_view() =~~= deposit_seeds(prefix.spec_bytes(), *sender));
    }
    find_program_address(&seeds, program_id)
}

/// Derives the address that a withdrawal from the escrow of `sender` checks
/// and signs with.
pub fn find_withdraw_address(sender: &Pubkey, program_id: &Pubkey) -> (found: Option<(Pubkey, u8)>)
    ensures
        found == derived(withdraw_seeds(*sender), *program_id),
{
    let mut seeds: Vec<Vec<u8>> = Vec::new();
    seeds.push(sender.to_vec());
    proof {
        assert(seeds.deep_view() =~~= withdraw_seeds(*sender));
    }
    find_program_address(&seeds, program_id)
}

/// The seeds under which the program signs for the escrow of `sender`.
pub fn signing_seeds(sender: &Pubkey, bump: u8) -> (seeds: Vec<Vec<u8>>)
    ensures
        seeds.deep_view() == signer_seeds(*sender, bump),
{
    let mut last: Vec<u8> = Vec::new();
    last.push(bump);
    let mut seeds: Vec<Vec<u8>> = Vec::new();
    seeds.push(sender.to_vec());
    seeds.push(last);
    proof {
        assert(seeds.deep_view() =~~= signer_seeds(*sender, bump));
    }
    seeds
}

/// Derivation is a function of the seeds and the program alone: equal inputs
/// give the same address and the same bump seed.
pub proof fn lemma_derivation_is_a_function(
    program_a: Pubkey,
    prefix_a: Seq<u8>,
    sender_a: Pubkey,
    program_b: Pubkey,
    prefix_b: Seq<u8>,
    sender_b: Pubkey,
)
    requires
        program_a == program_b,
        prefix_a == prefix_b,
        sender_a == sender_b,
    ensures
        derived(deposit_seeds(prefix_a, sender_a), program_a) == derived(
            deposit_seeds(prefix_b, sender_b),
            program_b,
        ),
{
}

/// Deriving twice gives the same address and the same bump seed: whatever two
/// derivations for one sender, prefix and program found, they found the same.
pub proof fn lemma_derivation_repeats(
    first: Option<(Pubkey, u8)>,
    second: Option<(Pubkey, u8)>,
    program_id: Pubkey,
    prefix: Seq<u8>,
    sender: Pubkey,
)
    requires
        first == derived(deposit_seeds(prefix, sender), program_id),
        second == derived(deposit_seeds(prefix, sender), program_id),
    ensures
        first == second,
{
}

} // verus!
