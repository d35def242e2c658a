use sol_staking_rewards::address::{
    signer_seeds, stake_account_address, stake_account_seeds, stake_info_address, stake_info_seeds,
    vault_address, vault_seeds,
};
use sol_staking_rewards::constants::{STAKE_INFO_SEED, TOKEN_SEED, VAULT_SEED};
use solana_program::pubkey::Pubkey;

const PROGRAM: [u8; 32] = [7; 32];
const ALICE: [u8; 32] = [1; 32];
const BOB: [u8; 32] = [2; 32];

fn recreate(seeds: &[Vec<u8>], program: [u8; 32]) -> [u8; 32] {
    let parts: Vec<&[u8]> = seeds.iter().map(|s| s.as_slice()).collect();
    Pubkey::create_program_address(&parts, &Pubkey::new_from_array(program)).unwrap().to_bytes()
}

#[test]
fn seeds_spell_their_names() {
    assert_eq!(&VAULT_SEED, b"vault");
    assert_eq!(&STAKE_INFO_SEED, b"stake_info");
    assert_eq!(&TOKEN_SEED, b"token");
    assert_eq!(vault_seeds(), vec![b"vault".to_vec()]);
    assert_eq!(stake_info_seeds(&ALICE), vec![b"stake_info".to_vec(), ALICE.to_vec()]);
    assert_eq!(stake_account_seeds(&BOB), vec![b"token".to_vec(), BOB.to_vec()]);
}

#[test]
fn signer_seeds_append_the_bump() {
    let s = signer_seeds(stake_account_seeds(&ALICE), 254);
    assert_eq!(s, vec![b"token".to_vec(), ALICE.to_vec(), vec![254]]);
}

#[test]
fn vault_address_matches_the_host_derivation() {
    let (addr, bump) = vault_address(&PROGRAM).unwrap();
    let expected = Pubkey::find_program_address(&[b"vault"], &Pubkey::new_from_array(PROGRAM));
    assert_eq!((Pubkey::new_from_array(addr), bump), expected);
    assert_ne!(addr, PROGRAM);
    assert_eq!(recreate(&signer_seeds(vault_seeds(), bump), PROGRAM), addr);
}

#[test]
fn participant_addresses_are_distinct_and_stable() {
    let (info_a, _) = stake_info_address(&PROGRAM, &ALICE).unwrap();
    let (info_b, _) = stake_info_address(&PROGRAM, &BOB).unwrap();
    let (escrow_a, bump_a) = stake_account_address(&PROGRAM, &ALICE).unwrap();
    assert_ne!(info_a, info_b);
    assert_ne!(info_a, escrow_a);
    assert_eq!(stake_info_address(&PROGRAM, &ALICE), Some((info_a, stake_info_address(&PROGRAM, &ALICE).unwrap().1)));
    assert_eq!(recreate(&signer_seeds(stake_account_seeds(&ALICE), bump_a), PROGRAM), escrow_a);
    let expected = Pubkey::find_program_address(&[b"stake_info", &ALICE], &Pubkey::new_from_array(PROGRAM));
    assert_eq!(Pubkey::new_from_array(info_a), expected.0);
}
