use mysolanaapp::pubkey::{associated_token_program_id, spl_token_program_id, Pubkey};
use mysolanaapp::token::{
    associated_token_account_address, check_associated_token_account, check_token_account, AtaError,
};

use spl_token::solana_program::program_pack::Pack;
use spl_token::solana_program::pubkey::Pubkey as TokenKey;
use spl_token::state::{Account, AccountState};

fn key(b: u8) -> Pubkey {
    Pubkey { bytes: [b; 32] }
}

fn token_account(mint: &Pubkey, owner: &Pubkey, amount: u64, state: AccountState) -> Vec<u8> {
    let account = Account {
        mint: TokenKey::new_from_array(mint.bytes),
        owner: TokenKey::new_from_array(owner.bytes),
        amount,
        state,
        ..Account::default()
    };
    let mut data = vec![0u8; Account::LEN];
    Account::pack(account, &mut data).unwrap();
    data
}

fn ata_of(wallet: &Pubkey, mint: &Pubkey) -> Pubkey {
    let (address, _) = solana_program::pubkey::Pubkey::find_program_address(
        &[&wallet.bytes, &spl_token_program_id().bytes, &mint.bytes],
        &solana_program::pubkey::Pubkey::new_from_array(associated_token_program_id().bytes),
    );
    Pubkey { bytes: address.to_bytes() }
}

#[test]
fn associated_token_account_gives_its_amount() {
    let (wallet, mint) = (key(9), key(7));
    let data = token_account(&mint, &wallet, 42, AccountState::Initialized);
    let ata = ata_of(&wallet, &mint);
    assert_eq!(check_associated_token_account(&spl_token_program_id(), &ata, &data, &wallet, &mint), Ok(42));
}

#[test]
fn account_elsewhere_than_the_associated_address_is_refused() {
    let (wallet, mint) = (key(9), key(7));
    let data = token_account(&mint, &wallet, 42, AccountState::Initialized);
    assert_eq!(
        check_associated_token_account(&spl_token_program_id(), &key(3), &data, &wallet, &mint),
        Err(AtaError::PublicKeyMismatch)
    );
    // The address for another mint is not this mint's.
    let other = ata_of(&wallet, &key(8));
    assert_eq!(
        check_associated_token_account(&spl_token_program_id(), &other, &data, &wallet, &mint),
        Err(AtaError::PublicKeyMismatch)
    );
}

#[test]
fn account_of_another_wallet_is_refused() {
    let (wallet, mint) = (key(9), key(7));
    let data = token_account(&mint, &key(5), 42, AccountState::Initialized);
    let ata = ata_of(&wallet, &mint);
    assert_eq!(
        check_associated_token_account(&spl_token_program_id(), &ata, &data, &wallet, &mint),
        Err(AtaError::PublicKeyMismatch)
    );
}

#[test]
fn account_checks_come_in_order() {
    let (wallet, mint) = (key(9), key(7));
    let ata = ata_of(&wallet, &mint);
    let data = token_account(&mint, &wallet, 42, AccountState::Initialized);
    assert_eq!(check_associated_token_account(&key(1), &ata, &data, &wallet, &mint), Err(AtaError::IncorrectOwner));
    assert_eq!(
        check_associated_token_account(&spl_token_program_id(), &ata, &data[..100], &wallet, &mint),
        Err(AtaError::InvalidAccountData)
    );
    let mut bad_tag = data.clone();
    bad_tag[72] = 2;
    assert_eq!(
        check_associated_token_account(&spl_token_program_id(), &ata, &bad_tag, &wallet, &mint),
        Err(AtaError::InvalidAccountData)
    );
    let uninit = token_account(&mint, &wallet, 42, AccountState::Uninitialized);
    assert_eq!(
        check_associated_token_account(&spl_token_program_id(), &ata, &uninit, &wallet, &mint),
        Err(AtaError::Uninitialized)
    );
    let frozen = token_account(&mint, &wallet, 7, AccountState::Frozen);
    assert_eq!(check_associated_token_account(&spl_token_program_id(), &ata, &frozen, &wallet, &mint), Ok(7));
}

#[test]
fn associated_address_is_the_derived_program_address() {
    let (wallet, mint) = (key(9), key(7));
    assert_eq!(associated_token_account_address(&wallet, &mint).unwrap().bytes, ata_of(&wallet, &mint).bytes);
    assert_ne!(associated_token_account_address(&wallet, &mint).unwrap().bytes, ata_of(&mint, &wallet).bytes);
}

#[test]
fn token_account_check_on_a_given_address() {
    let wallet = key(9);
    let data = token_account(&key(7), &wallet, 42, AccountState::Initialized);
    let owner = spl_token_program_id();
    assert_eq!(check_token_account(&owner, &key(3), &data, &wallet, &Some(key(3))), Ok(42));
    assert_eq!(check_token_account(&owner, &key(3), &data, &wallet, &Some(key(4))), Err(AtaError::PublicKeyMismatch));
    assert_eq!(check_token_account(&owner, &key(3), &data, &wallet, &None), Err(AtaError::NoProgramAddress));
    assert_eq!(check_token_account(&owner, &key(3), &data, &key(8), &None), Err(AtaError::PublicKeyMismatch));
}
