use mysolanaapp::pubkey::{spl_token_program_id, Pubkey};
use mysolanaapp::instruction::ProgramError;
use mysolanaapp::transfer::{process_instruction, AccountRef};

fn account(b: u8, is_signer: bool) -> AccountRef {
    AccountRef { key: Pubkey { bytes: [b; 32] }, is_signer }
}

fn accounts(owner_signs: bool) -> Vec<AccountRef> {
    vec![
        account(1, false),
        account(2, false),
        account(3, false),
        account(4, owner_signs),
        AccountRef { key: spl_token_program_id(), is_signer: false },
    ]
}

#[test]
fn too_few_accounts() {
    let mut v = accounts(true);
    v.pop();
    assert_eq!(process_instruction(&Pubkey { bytes: [0; 32] }, &v, &[]).unwrap_err(), ProgramError::NotEnoughAccountKeys);
}

#[test]
fn owner_must_sign() {
    assert_eq!(process_instruction(&Pubkey { bytes: [0; 32] }, &accounts(false), &[]).unwrap_err(), ProgramError::InvalidSeeds);
}

#[test]
fn transfer_checked_of_one_token_with_nine_decimals() {
    let call = process_instruction(&Pubkey { bytes: [0; 32] }, &accounts(true), &[1, 2, 3]).unwrap();
    let ix = &call.instruction;
    assert_eq!(ix.program_id.bytes, spl_token_program_id().bytes);
    let mut expected = vec![12u8];
    expected.extend_from_slice(&1_000_000_000u64.to_le_bytes());
    expected.push(9);
    assert_eq!(ix.data, expected);
    let metas: Vec<(u8, bool, bool)> =
        ix.accounts.iter().map(|m| (m.pubkey.bytes[0], m.is_signer, m.is_writable)).collect();
    assert_eq!(metas, vec![(1, false, true), (2, false, false), (3, false, true), (4, false, false), (4, true, false)]);
    assert_eq!(call.invoke_accounts, vec![4, 0, 1, 2, 3]);
}

#[test]
fn only_the_first_five_accounts_matter() {
    let a = process_instruction(&Pubkey { bytes: [0; 32] }, &accounts(true), &[]).unwrap();
    let mut more = accounts(true);
    more.push(account(9, true));
    let b = process_instruction(&Pubkey { bytes: [7; 32] }, &more, &[1, 2, 3, 4]).unwrap();
    let view = |c: &mysolanaapp::transfer::TransferCall| {
        let metas: Vec<([u8; 32], bool, bool)> =
            c.instruction.accounts.iter().map(|m| (m.pubkey.bytes, m.is_signer, m.is_writable)).collect();
        (c.instruction.program_id.bytes, metas, c.instruction.data.clone(), c.invoke_accounts.clone())
    };
    assert_eq!(view(&a), view(&b));
}
