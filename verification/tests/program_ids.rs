use std::str::FromStr;

use mysolanaapp::pubkey::{
    associated_token_program_id, breeding_machine_program_id, is_allowed_program,
    spl_token_program_id, system_program_id, Pubkey,
};

fn decoded(s: &str) -> [u8; 32] {
    solana_program::pubkey::Pubkey::from_str(s).unwrap().to_bytes()
}

#[test]
fn program_ids_match_their_base58_names() {
    assert_eq!(breeding_machine_program_id().bytes, decoded("2b9Q4a8DSNfypePwm1FvE9AgLWJDbHZbVSuV6DqGooaS"));
    assert_eq!(spl_token_program_id().bytes, decoded("TokenkegQfeZyiNwAJbNbGKPFXCWuBvf9Ss623VQ5DA"));
    assert_eq!(associated_token_program_id().bytes, decoded("ATokenGPvbdGVxr1b2hvZbsiqW5xWH25efTNsLJA8knL"));
    assert_eq!(system_program_id().bytes, solana_program::system_program::ID.to_bytes());
    assert_eq!(spl_token_program_id().bytes, spl_token::id().to_bytes());
}

#[test]
fn only_the_four_programs_are_allowed() {
    assert!(is_allowed_program(&breeding_machine_program_id()));
    assert!(is_allowed_program(&spl_token_program_id()));
    assert!(is_allowed_program(&associated_token_program_id()));
    assert!(is_allowed_program(&system_program_id()));
    let mut other = spl_token_program_id();
    other.bytes[31] ^= 1;
    assert!(!is_allowed_program(&other));
    assert!(!is_allowed_program(&Pubkey { bytes: [7u8; 32] }));
}

#[test]
fn same_as_compares_every_byte() {
    let a = Pubkey { bytes: [1u8; 32] };
    let mut b = Pubkey { bytes: [1u8; 32] };
    assert!(a.same_as(&b));
    b.bytes[0] = 2;
    assert!(!a.same_as(&b));
}
