use mysolanaapp::breeding_machine::{
    BreedingMachine, BreedingMachineData, Creator, PaymentStep, WhitelistBurn,
};
use mysolanaapp::instruction::{Instruction, ProgramError};
use mysolanaapp::invocations::{item_instructions, payment_instruction, whitelist_burn_instruction, ItemAccounts};
use mysolanaapp::pubkey::{spl_token_program_id, system_program_id, Pubkey};

fn key(b: u8) -> Pubkey {
    Pubkey { bytes: [b; 32] }
}

fn metas(ix: &Instruction) -> Vec<(u8, bool, bool)> {
    ix.accounts.iter().map(|m| (m.pubkey.bytes[0], m.is_signer, m.is_writable)).collect()
}

fn machine() -> BreedingMachine {
    BreedingMachine {
        authority: key(1),
        wallet: key(2),
        token_mint: None,
        items_redeemed: 3,
        data: BreedingMachineData {
            price: 100,
            symbol: String::from("BRD"),
            seller_fee_basis_points: 500,
            max_supply: 7,
            is_mutable: true,
            retain_authority: true,
            go_live_date: None,
            end_settings: None,
            creators: vec![
                Creator { address: key(10), verified: true, share: 60 },
                Creator { address: key(11), verified: false, share: 40 },
            ],
            whitelist_mint_settings: None,
            items_available: 10,
            gatekeeper: None,
        },
    }
}

#[test]
fn burn_of_one_whitelist_token() {
    let keys = vec![key(40), key(41), key(42)];
    let burn = WhitelistBurn { mint: 1, source: 0, authority: 2 };
    let ix = whitelist_burn_instruction(&spl_token_program_id(), &keys, burn).unwrap();
    assert_eq!(ix.program_id.bytes, spl_token_program_id().bytes);
    let mut data = vec![8u8];
    data.extend_from_slice(&1u64.to_le_bytes());
    assert_eq!(ix.data, data);
    assert_eq!(metas(&ix), vec![(40, false, true), (41, false, true), (42, true, false)]);
    assert_eq!(whitelist_burn_instruction(&key(3), &keys, burn).unwrap_err(), ProgramError::IncorrectProgramId);
}

#[test]
fn lamport_payment_is_a_system_transfer() {
    let ix = payment_instruction(&spl_token_program_id(), &key(9), &key(2), &vec![], &PaymentStep::Lamports, 1_500)
        .unwrap();
    assert_eq!(ix.program_id.bytes, system_program_id().bytes);
    let mut data = vec![2u8, 0, 0, 0];
    data.extend_from_slice(&1_500u64.to_le_bytes());
    assert_eq!(ix.data, data);
    assert_eq!(metas(&ix), vec![(9, true, true), (2, false, true)]);
}

#[test]
fn token_payment_is_a_token_transfer() {
    let keys = vec![key(40), key(41)];
    let payment = PaymentStep::Token { token_account: 0, transfer_authority: 1, mint: key(4) };
    let ix = payment_instruction(&spl_token_program_id(), &key(9), &key(2), &keys, &payment, 250).unwrap();
    assert_eq!(ix.program_id.bytes, spl_token_program_id().bytes);
    let mut data = vec![3u8];
    data.extend_from_slice(&250u64.to_le_bytes());
    assert_eq!(ix.data, data);
    assert_eq!(metas(&ix), vec![(40, false, true), (2, false, true), (41, true, false)]);
    assert_eq!(
        payment_instruction(&key(3), &key(9), &key(2), &keys, &payment, 250).unwrap_err(),
        ProgramError::IncorrectProgramId
    );
}

fn accounts() -> ItemAccounts {
    ItemAccounts {
        metadata: key(20),
        mint: key(21),
        mint_authority: key(22),
        payer: key(23),
        machine_creator: key(24),
        update_authority: key(25),
        master_edition: key(26),
        token_program: spl_token_program_id(),
        system_program: system_program_id(),
        rent: key(27),
    }
}

#[test]
fn item_metadata_is_created_for_the_metadata_program() {
    let m = machine();
    let item = item_instructions(&m, &accounts(), String::from("Item #4"), String::from("https://x/4.json"));
    let metadata_program = mpl_token_metadata::ID.to_bytes();
    let ix = &item.create_metadata;
    assert_eq!(ix.program_id.bytes, metadata_program);
    assert_eq!(
        metas(ix),
        vec![(20, false, true), (21, false, false), (22, true, false), (23, true, true), (24, true, false), (0, false, false), (27, false, false)]
    );
    // Discriminator, then the name as a length-prefixed string.
    assert_eq!(ix.data[0], 33);
    assert_eq!(&ix.data[1..5], &7u32.to_le_bytes());
    assert_eq!(&ix.data[5..12], b"Item #4");
    // The creators follow the symbol, the uri and the fee: the machine creator first.
    let creators_at = 12 + 4 + 3 + 4 + 16 + 2;
    assert_eq!(ix.data[creators_at], 1);
    assert_eq!(&ix.data[creators_at + 1..creators_at + 5], &3u32.to_le_bytes());
    assert_eq!(&ix.data[creators_at + 5..creators_at + 37], &[24u8; 32]);
    assert_eq!(&ix.data[creators_at + 37..creators_at + 39], &[1, 0]);
    assert_eq!(&ix.data[creators_at + 39..creators_at + 71], &[10u8; 32]);
    assert_eq!(&ix.data[creators_at + 71..creators_at + 73], &[0, 60]);
}

#[test]
fn master_edition_carries_the_max_supply() {
    let m = machine();
    let item = item_instructions(&m, &accounts(), String::from("Item #4"), String::from("u"));
    let ix = &item.create_master_edition;
    assert_eq!(ix.program_id.bytes, mpl_token_metadata::ID.to_bytes());
    let mut data = vec![17u8, 1];
    data.extend_from_slice(&7u64.to_le_bytes());
    assert_eq!(ix.data, data);
    assert_eq!(
        metas(ix),
        vec![
            (26, false, true),
            (21, false, true),
            (24, true, false),
            (22, true, false),
            (23, true, true),
            (20, false, true),
            (spl_token_program_id().bytes[0], false, false),
            (0, false, false),
            (27, false, false)
        ]
    );
}

#[test]
fn update_hands_the_item_to_its_new_authority() {
    let mut m = machine();
    let item = item_instructions(&m, &accounts(), String::from("n"), String::from("u"));
    let ix = &item.update_metadata;
    assert_eq!(metas(ix), vec![(20, false, true), (24, true, false)]);
    let mut data = vec![15u8, 0, 1];
    data.extend_from_slice(&[1u8; 32]);
    data.extend_from_slice(&[1, 1, 0]);
    assert_eq!(ix.data, data);
    m.data.retain_authority = false;
    let item = item_instructions(&m, &accounts(), String::from("n"), String::from("u"));
    assert_eq!(&item.update_metadata.data[3..35], &[25u8; 32]);
}
