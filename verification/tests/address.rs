use solana_program::pubkey::Pubkey as HostPubkey;
use timelock_escrow::address::{
    find_deposit_address, find_program_address, find_withdraw_address, signing_seeds,
};
use timelock_escrow::pubkey::Pubkey;
use timelock_escrow::{PREFIX, PREFIX_TOKEN};

fn program() -> Pubkey {
    let mut bytes = [0u8; 32];
    for (i, b) in bytes.iter_mut().enumerate() {
        *b = (i as u8).wrapping_mul(7).wrapping_add(3);
    }
    Pubkey::new_from_array(bytes)
}

fn sender() -> Pubkey {
    Pubkey::new_from_array([0x5a; 32])
}

#[test]
fn prefixes_are_sol_and_token() {
    assert_eq!(PREFIX, "sol");
    assert_eq!(PREFIX_TOKEN, "token");
    assert_eq!(PREFIX.as_bytes(), &[115, 111, 108]);
}

#[test]
fn deposit_address_is_the_hosts_derivation_for_prefix_and_sender() {
    let host_program = HostPubkey::new_from_array(program().to_bytes());
    for prefix in [PREFIX, PREFIX_TOKEN] {
        let (address, bump) = find_deposit_address(prefix, &sender(), &program()).unwrap();
        let (expected, expected_bump) = HostPubkey::find_program_address(
            &[prefix.as_bytes(), &sender().to_bytes()],
            &host_program,
        );
        assert_eq!(address.to_bytes(), expected.to_bytes());
        assert_eq!(bump, expected_bump);
        let rebuilt = HostPubkey::create_program_address(
            &[prefix.as_bytes(), &sender().to_bytes(), &[bump]],
            &host_program,
        )
        .unwrap();
        assert_eq!(rebuilt.to_bytes(), address.to_bytes());
        assert!(!rebuilt.is_on_curve());
        assert_ne!(address, sender());
        assert_ne!(address, program());
    }
}

#[test]
fn withdraw_address_is_the_hosts_derivation_for_the_sender_alone() {
    let host_program = HostPubkey::new_from_array(program().to_bytes());
    let (address, bump) = find_withdraw_address(&sender(), &program()).unwrap();
    let (expected, expected_bump) =
        HostPubkey::find_program_address(&[&sender().to_bytes()], &host_program);
    assert_eq!(address.to_bytes(), expected.to_bytes());
    assert_eq!(bump, expected_bump);
}

#[test]
fn derivation_twice_gives_the_same_address_and_bump() {
    for prefix in [PREFIX, PREFIX_TOKEN] {
        let first = find_deposit_address(prefix, &sender(), &program());
        let second = find_deposit_address(prefix, &sender(), &program());
        assert!(first.is_some());
        assert_eq!(first, second);
    }
    assert_eq!(
        find_withdraw_address(&sender(), &program()),
        find_withdraw_address(&sender(), &program())
    );
}

#[test]
fn the_two_prefixes_and_no_prefix_give_different_addresses() {
    let sol = find_deposit_address(PREFIX, &sender(), &program()).unwrap().0;
    let token = find_deposit_address(PREFIX_TOKEN, &sender(), &program()).unwrap().0;
    let bare = find_withdraw_address(&sender(), &program()).unwrap().0;
    assert_ne!(sol, token);
    assert_ne!(sol, bare);
    assert_ne!(token, bare);
}

#[test]
fn derivation_depends_on_sender_and_program() {
    let other_sender = Pubkey::new_from_array([0x5b; 32]);
    let other_program = Pubkey::new_from_array([0x11; 32]);
    let base = find_deposit_address(PREFIX, &sender(), &program()).unwrap().0;
    assert_ne!(base, find_deposit_address(PREFIX, &other_sender, &program()).unwrap().0);
    assert_ne!(base, find_deposit_address(PREFIX, &sender(), &other_program).unwrap().0);
}

#[test]
fn general_derivation_takes_any_seeds() {
    let host_program = HostPubkey::new_from_array(program().to_bytes());
    let seeds = vec![b"vault".to_vec(), vec![1, 2, 3], Vec::new()];
    let (address, bump) = find_program_address(&seeds, &program()).unwrap();
    let (expected, expected_bump) =
        HostPubkey::find_program_address(&[b"vault", &[1, 2, 3], &[]], &host_program);
    assert_eq!(address.to_bytes(), expected.to_bytes());
    assert_eq!(bump, expected_bump);
    let none: Vec<Vec<u8>> = Vec::new();
    assert_eq!(
        find_program_address(&none, &program()).unwrap().0.to_bytes(),
        HostPubkey::find_program_address(&[], &host_program).0.to_bytes()
    );
}

#[test]
fn a_seed_longer_than_the_host_allows_has_no_address() {
    let seeds = vec![vec![0u8; 33]];
    assert_eq!(find_program_address(&seeds, &program()), None);
    let many: Vec<Vec<u8>> = (0..17).map(|i| vec![i as u8]).collect();
    assert_eq!(find_program_address(&many, &program()), None);
}

#[test]
fn signing_seeds_are_sender_then_bump() {
    let seeds = signing_seeds(&sender(), 254);
    assert_eq!(seeds, vec![vec![0x5a; 32], vec![254]]);
}
