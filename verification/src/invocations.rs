//! The instructions a mint hands to other programs: the burn of a whitelist token, the
//! payment, and the token-metadata calls that make the minted item.
use vstd::prelude::*;

use mpl_token_metadata::instructions::{
    CreateMasterEditionV3, CreateMasterEditionV3InstructionArgs, CreateMetadataAccountV3,
    CreateMetadataAccountV3InstructionArgs, UpdateMetadataAccountV2,
    UpdateMetadataAccountV2InstructionArgs,
};
use mpl_token_metadata::types::{Creator as MetadataCreator, DataV2};
use solana_program::pubkey::Pubkey as RuntimeKey;
use solana_program::system_instruction;

use crate::breeding_machine::{
    metadata_creators, new_update_authority, BreedingMachine, Creator, PaymentStep, WhitelistBurn,
};
use crate::instruction::{le_bytes, meta_is, AccountMeta, Instruction, ProgramError};
use crate::pubkey::{spl_token_program_bytes, system_program_bytes, Pubkey};
use crate::token::{burn_data, token_burn, token_transfer, transfer_data};

verus! {

/// The address of the token metadata program
/// (`metaqbxxUerdq28cj1RbAWkYQm3ybzjb6a8bt518x1s`).
pub open spec fn token_metadata_program_bytes() -> Seq<u8> {
    seq![11u8, 112, 101, 177, 227, 209, 124, 69, 56, 157, 82, 127, 107, 4, 195, 205, 88, 184, 108, 115, 26, 160, 253, 181, 73, 182, 209, 188, 3, 248, 41, 70]
}

/// The data of a system program `Transfer` instruction: the variant index 2 as a
/// little-endian `u32`, then the lamports as a little-endian `u64`.
pub open spec fn system_transfer_data(lamports: u64) -> Seq<u8> {
    le_bytes(2, 4) + le_bytes(lamports as nat, 8)
}

/// Builds a system program transfer of lamports.
///
/// Calls `solana_program::system_instruction::transfer`. As its source shows, the
/// instruction is for the system program, its accounts are the sender (signer, writable)
/// and the receiver (writable), and its data is the `Transfer` variant serialized with
/// `bincode` (variant index 2 as a little-endian `u32`, then the lamports as a
/// little-endian `u64`).
#[verifier::external_body]
fn system_transfer(from: &Pubkey, to: &Pubkey, lamports: u64) -> (ix: Instruction)
    ensures
        ix.program_id@ == system_program_bytes(),
        ix.accounts@.len() == 2,
        meta_is(ix.accounts@[0], from@, true, true),
        meta_is(ix.accounts@[1], to@, false, true),
        ix.data@ == system_transfer_data(lamports),
{
    let k = |p: &Pubkey| RuntimeKey::new_from_array(p.bytes);
    let ix = system_instruction::transfer(&k(from), &k(to), lamports);
    let b = |p: RuntimeKey| Pubkey { bytes: p.to_bytes() };
    let metas = ix.accounts.into_iter().map(|m| AccountMeta { pubkey: b(m.pubkey), is_signer: m.is_signer, is_writable: m.is_writable });
    Instruction { program_id: b(ix.program_id), accounts: metas.collect(), data: ix.data }
}

/// The creators of an item's metadata as plain values: address, verified, share.
pub open spec fn creator_tuples(creators: Seq<([u8; 32], bool, u8)>) -> Seq<(Seq<u8>, bool, u8)> {
    creators.map_values(|c: ([u8; 32], bool, u8)| (c.0@, c.1, c.2))
}

/// Whether the account `m`, given as address, signing and writable, is `key`, signing and
/// writable as stated.
pub open spec fn meta_tuple_is(m: ([u8; 32], bool, bool), key: Seq<u8>, is_signer: bool, is_writable: bool) -> bool {
    m.0@ == key && m.1 == is_signer && m.2 == is_writable
}

/// The data of a token-metadata `CreateMetadataAccountV3` instruction with these name,
/// symbol, uri, seller fee, creators (present) and mutability, and with no collection, no
/// uses and no collection details.
pub uninterp spec fn create_metadata_data(
    name: Seq<char>,
    symbol: Seq<char>,
    uri: Seq<char>,
    seller_fee_basis_points: u16,
    creators: Seq<(Seq<u8>, bool, u8)>,
    is_mutable: bool,
) -> Seq<u8>;

/// Builds a token-metadata `CreateMetadataAccountV3` instruction, given and returned as
/// plain values (program id, accounts as address, signing and writable, data).
///
/// Calls `CreateMetadataAccountV3::instruction` of the token-metadata crate, with the
/// creators given, no collection, no uses and no collection details. As its source shows,
/// the instruction is for the token metadata program and its accounts are the metadata
/// (writable), the mint, the mint authority (signer), the payer (signer, writable), the
/// update authority (signer as asked), the system program and the rent sysvar. Its data
/// (a discriminator and the arguments in `borsh`) is named `create_metadata_data`.
#[verifier::external_body]
fn token_metadata_create_metadata(
    metadata: [u8; 32],
    mint: [u8; 32],
    mint_authority: [u8; 32],
    payer: [u8; 32],
    update_authority: [u8; 32],
    update_authority_is_signer: bool,
    system_program: [u8; 32],
    rent: [u8; 32],
    name: String,
    symbol: String,
    uri: String,
    seller_fee_basis_points: u16,
    creators: Vec<([u8; 32], bool, u8)>,
    is_mutable: bool,
) -> (r: ([u8; 32], Vec<([u8; 32], bool, bool)>, Vec<u8>))
    ensures
        r.0@ == token_metadata_program_bytes(),
        r.1@.len() == 7,
        meta_tuple_is(r.1@[0], metadata@, false, true),
        meta_tuple_is(r.1@[1], mint@, false, false),
        meta_tuple_is(r.1@[2], mint_authority@, true, false),
        meta_tuple_is(r.1@[3], payer@, true, true),
        meta_tuple_is(r.1@[4], update_authority@, update_authority_is_signer, false),
        meta_tuple_is(r.1@[5], system_program@, false, false),
        meta_tuple_is(r.1@[6], rent@, false, false),
        r.2@ == create_metadata_data(
            name@,
            symbol@,
            uri@,
            seller_fee_basis_points,
            creator_tuples(creators@),
            is_mutable,
        ),
{
    let data = DataV2 { name, symbol, uri, seller_fee_basis_points, creators: Some(creators.into_iter().map(|(a, verified, share)| MetadataCreator { address: a.into(), verified, share }).collect()), collection: None, uses: None };
    let ix = CreateMetadataAccountV3 { metadata: metadata.into(), mint: mint.into(), mint_authority: mint_authority.into(), payer: payer.into(), update_authority: (update_authority.into(), update_authority_is_signer), system_program: system_program.into(), rent: Some(rent.into()) }
        .instruction(CreateMetadataAccountV3InstructionArgs { data, is_mutable, collection_details: None });
    (ix.program_id.to_bytes(), ix.accounts.iter().map(|m| (m.pubkey.to_bytes(), m.is_signer, m.is_writable)).collect(), ix.data)
}

/// An instruction from its plain parts.
fn instruction_from_parts(program_id: [u8; 32], accounts: Vec<([u8; 32], bool, bool)>, data: Vec<u8>) -> (ix: Instruction)
    ensures
        ix.program_id@ == program_id@,
        ix.data@ == data@,
        ix.accounts@.len() == accounts@.len(),
        forall|i: int|
            0 <= i < accounts@.len() ==> meta_is(
                #[trigger] ix.accounts@[i],
                accounts@[i].0@,
                accounts@[i].1,
                accounts@[i].2,
            ),
{
    let mut metas: Vec<AccountMeta> = Vec::new();
    let mut i: usize = 0;
    while i < accounts.len()
        invariant
            0 <= i <= accounts@.len(),
            metas@.len() == i,
            forall|j: int|
                0 <= j < i ==> meta_is(
                    #[trigger] metas@[j],
                    accounts@[j].0@,
                    accounts@[j].1,
                    accounts@[j].2,
                ),
        decreases accounts@.len() - i,
    {
        let (key, is_signer, is_writable) = accounts[i];
        metas.push(AccountMeta { pubkey: Pubkey { bytes: key }, is_signer, is_writable });
        i = i + 1;
    }
    Instruction { program_id: Pubkey { bytes: program_id }, accounts: metas, data }
}

/// The creators as plain values.
fn creators_as_tuples(creators: &Vec<Creator>) -> (r: Vec<([u8; 32], bool, u8)>)
    ensures
        r@.len() == creators@.len(),
        forall|i: int|
            0 <= i < creators@.len() ==> (#[trigger] r@[i]).0@ == creators@[i].address@ && r@[i].1
                == creators@[i].verified && r@[i].2 == creators@[i].share,
{
    let mut r: Vec<([u8; 32], bool, u8)> = Vec::new();
    let mut i: usize = 0;
    while i < creators.len()
        invariant
            0 <= i <= creators@.len(),
            r@.len() == i,
            forall|j: int|
                0 <= j < i ==> (#[trigger] r@[j]).0@ == creators@[j].address@ && r@[j].1
                    == creators@[j].verified && r@[j].2 == creators@[j].share,
        decreases creators@.len() - i,
    {
        let c = &creators[i];
        r.push((c.address.bytes, c.verified, c.share));
        i = i + 1;
    }
    r
}

/// An optional `u64` in `borsh`: a 0 byte, or a 1 byte and the value little-endian.
pub open spec fn borsh_option_u64(v: Option<u64>) -> Seq<u8> {
    match v {
        None => seq![0u8],
        Some(x) => seq![1u8] + le_bytes(x as nat, 8),
    }
}

/// An optional address in `borsh`: a 0 byte, or a 1 byte and the 32 bytes.
pub open spec fn borsh_option_key(v: Option<Seq<u8>>) -> Seq<u8> {
    match v {
        None => seq![0u8],
        Some(k) => seq![1u8] + k,
    }
}

/// An optional `bool` in `borsh`: a 0 byte, or a 1 byte and the value as 0 or 1.
pub open spec fn borsh_option_bool(v: Option<bool>) -> Seq<u8> {
    match v {
        None => seq![0u8],
        Some(b) => seq![1u8, if b { 1u8 } else { 0u8 }],
    }
}

/// Builds a token-metadata `CreateMasterEditionV3` instruction.
///
/// Calls `CreateMasterEditionV3::instruction` of the token-metadata crate. As its source
/// shows, the instruction is for the token metadata program, its accounts are the edition
/// (writable), the mint (writable), the update authority (signer), the mint authority
/// (signer), the payer (signer, writable), the metadata (writable), the token program, the
/// system program and the rent sysvar, and its data is the discriminator 17 followed by the
/// maximum supply in `borsh`.
#[verifier::external_body]
fn token_metadata_create_master_edition(
    edition: &Pubkey,
    mint: &Pubkey,
    update_authority: &Pubkey,
    mint_authority: &Pubkey,
    payer: &Pubkey,
    metadata: &Pubkey,
    token_program: &Pubkey,
    system_program: &Pubkey,
    rent: &Pubkey,
    max_supply: Option<u64>,
) -> (ix: Instruction)
    ensures
        ix.program_id@ == token_metadata_program_bytes(),
        ix.accounts@.len() == 9,
        meta_is(ix.accounts@[0], edition@, false, true),
        meta_is(ix.accounts@[1], mint@, false, true),
        meta_is(ix.accounts@[2], update_authority@, true, false),
        meta_is(ix.accounts@[3], mint_authority@, true, false),
        meta_is(ix.accounts@[4], payer@, true, true),
        meta_is(ix.accounts@[5], metadata@, false, true),
        meta_is(ix.accounts@[6], token_program@, false, false),
        meta_is(ix.accounts@[7], system_program@, false, false),
        meta_is(ix.accounts@[8], rent@, false, false),
        ix.data@ == seq![17u8] + borsh_option_u64(max_supply),
{
    let k = |p: &Pubkey| RuntimeKey::new_from_array(p.bytes);
    let ix = CreateMasterEditionV3 { edition: k(edition), mint: k(mint), update_authority: k(update_authority), mint_authority: k(mint_authority), payer: k(payer), metadata: k(metadata), token_program: k(token_program), system_program: k(system_program), rent: Some(k(rent)) }
        .instruction(CreateMasterEditionV3InstructionArgs { max_supply });
    let b = |p: RuntimeKey| Pubkey { bytes: p.to_bytes() };
    let metas = ix.accounts.into_iter().map(|m| AccountMeta { pubkey: b(m.pubkey), is_signer: m.is_signer, is_writable: m.is_writable });
    Instruction { program_id: b(ix.program_id), accounts: metas.collect(), data: ix.data }
}

/// Builds a token-metadata `UpdateMetadataAccountV2` instruction that changes no data.
///
/// Calls `UpdateMetadataAccountV2::instruction` of the token-metadata crate with no new
/// data. As its source shows, the instruction is for the token metadata program, its
/// accounts are the metadata (writable) and the update authority (signer), and its data is
/// the discriminator 15, then in `borsh` the absent data, the new update authority, the
/// primary-sale flag and the mutability.
#[verifier::external_body]
fn token_metadata_update(
    metadata: &Pubkey,
    update_authority: &Pubkey,
    new_update_authority: Option<Pubkey>,
    primary_sale_happened: Option<bool>,
    is_mutable: Option<bool>,
) -> (ix: Instruction)
    ensures
        ix.program_id@ == token_metadata_program_bytes(),
        ix.accounts@.len() == 2,
        meta_is(ix.accounts@[0], metadata@, false, true),
        meta_is(ix.accounts@[1], update_authority@, true, false),
        ix.data@ == seq![15u8, 0u8] + borsh_option_key(
            match new_update_authority {
                Some(k) => Some(k@),
                None => None,
            },
        ) + borsh_option_bool(primary_sale_happened) + borsh_option_bool(is_mutable),
{
    let k = |p: &Pubkey| RuntimeKey::new_from_array(p.bytes);
    let ix = UpdateMetadataAccountV2 { metadata: k(metadata), update_authority: k(update_authority) }
        .instruction(UpdateMetadataAccountV2InstructionArgs { data: None, new_update_authority: new_update_authority.as_ref().map(k), primary_sale_happened, is_mutable });
    let b = |p: RuntimeKey| Pubkey { bytes: p.to_bytes() };
    let metas = ix.accounts.into_iter().map(|m| AccountMeta { pubkey: b(m.pubkey), is_signer: m.is_signer, is_writable: m.is_writable });
    Instruction { program_id: b(ix.program_id), accounts: metas.collect(), data: ix.data }
}

/// The instruction that burns one whitelist token: from the payer's whitelist token
/// account, of the whitelist mint, signed by the burn authority, all three among the
/// remaining accounts as the burn says. Refused when the token program is not the SPL
/// token program.
pub fn whitelist_burn_instruction(
    token_program: &Pubkey,
    remaining_keys: &Vec<Pubkey>,
    burn: WhitelistBurn,
) -> (r: Result<Instruction, ProgramError>)
    requires
        burn.source < remaining_keys@.len(),
        burn.mint < remaining_keys@.len(),
        burn.authority < remaining_keys@.len(),
    ensures
        r is Err <==> token_program@ != spl_token_program_bytes(),
        r is Err ==> r->Err_0 == ProgramError::IncorrectProgramId,
        r matches Ok(ix) ==> {
            &&& ix.program_id@ == token_program@
            &&& ix.data@ == burn_data(1)
            &&& ix.accounts@.len() == 3
            &&& meta_is(ix.accounts@[0], remaining_keys@[burn.source as int]@, false, true)
            &&& meta_is(ix.accounts@[1], remaining_keys@[burn.mint as int]@, false, true)
            &&& meta_is(ix.accounts@[2], remaining_keys@[burn.authority as int]@, true, false)
        },
{
    let no_signers: Vec<Pubkey> = Vec::new();
    token_burn(
        token_program,
        &remaining_keys[burn.source],
        &remaining_keys[burn.mint],
        &remaining_keys[burn.authority],
        &no_signers,
        1,
    )
}

/// The instruction that pays `amount` to the machine's wallet: a system transfer of
/// lamports from the payer, or a token transfer from the payer's token account signed by
/// the transfer authority, both among the remaining accounts as the payment says. A token
/// payment is refused when the token program is not the SPL token program.
pub fn payment_instruction(
    token_program: &Pubkey,
    payer: &Pubkey,
    wallet: &Pubkey,
    remaining_keys: &Vec<Pubkey>,
    payment: &PaymentStep,
    amount: u64,
) -> (r: Result<Instruction, ProgramError>)
    requires
        payment matches PaymentStep::Token { token_account, transfer_authority, .. }
            ==> token_account < remaining_keys@.len() && transfer_authority
            < remaining_keys@.len(),
    ensures
        payment is Lamports ==> (r matches Ok(ix) && {
            &&& ix.program_id@ == system_program_bytes()
            &&& ix.data@ == system_transfer_data(amount)
            &&& ix.accounts@.len() == 2
            &&& meta_is(ix.accounts@[0], payer@, true, true)
            &&& meta_is(ix.accounts@[1], wallet@, false, true)
        }),
        payment is Token ==> (r is Err <==> token_program@ != spl_token_program_bytes()),
        r is Err ==> r->Err_0 == ProgramError::IncorrectProgramId,
        payment matches PaymentStep::Token { token_account, transfer_authority, .. } ==> (r matches Ok(
            ix,
        ) ==> {
            &&& ix.program_id@ == token_program@
            &&& ix.data@ == transfer_data(amount)
            &&& ix.accounts@.len() == 3
            &&& meta_is(ix.accounts@[0], remaining_keys@[token_account as int]@, false, true)
            &&& meta_is(ix.accounts@[1], wallet@, false, true)
            &&& meta_is(ix.accounts@[2], remaining_keys@[transfer_authority as int]@, true, false)
        }),
{
    match payment {
        PaymentStep::Lamports => Ok(system_transfer(payer, wallet, amount)),
        PaymentStep::Token { token_account, transfer_authority, .. } => {
            let no_signers: Vec<Pubkey> = Vec::new();
            token_transfer(
                token_program,
                &remaining_keys[*token_account],
                wallet,
                &remaining_keys[*transfer_authority],
                &no_signers,
                amount,
            )
        },
    }
}

/// The accounts of a mint that the minted item's metadata calls name.
#[derive(Debug)]
pub struct ItemAccounts {
    pub metadata: Pubkey,
    pub mint: Pubkey,
    pub mint_authority: Pubkey,
    pub payer: Pubkey,
    /// The machine's creator account, which signs for the machine.
    pub machine_creator: Pubkey,
    /// The update authority account of the mint.
    pub update_authority: Pubkey,
    pub master_edition: Pubkey,
    pub token_program: Pubkey,
    pub system_program: Pubkey,
    pub rent: Pubkey,
}

/// The three token-metadata calls that make a minted item, in order.
#[derive(Debug)]
pub struct ItemInstructions {
    pub create_metadata: Instruction,
    pub create_master_edition: Instruction,
    pub update_metadata: Instruction,
}

/// The creators of a minted item as plain values: the machine's creator account first
/// (verified, no share), then the machine's creators (unverified, with their shares).
pub open spec fn item_creator_tuples(machine_creator: Seq<u8>, m: BreedingMachine) -> Seq<(Seq<u8>, bool, u8)> {
    seq![(machine_creator, true, 0u8)] + m.data.creators@.map_values(
        |c: Creator| (c.address@, false, c.share),
    )
}

/// The token-metadata calls that make the item `name` at `uri`: its metadata, created
/// with the machine's symbol, seller fee, mutability and creators (see
/// `item_creator_tuples`) and the machine's creator account as signing update authority;
/// its master edition, with the machine's maximum supply; and the update that hands the
/// item to its new update authority (see `new_update_authority`) and marks its primary sale.
pub fn item_instructions(m: &BreedingMachine, a: &ItemAccounts, name: String, uri: String) -> (r:
    ItemInstructions)
    ensures
        ({
            let ix = r.create_metadata;
            &&& ix.program_id@ == token_metadata_program_bytes()
            &&& ix.accounts@.len() == 7
            &&& meta_is(ix.accounts@[0], a.metadata@, false, true)
            &&& meta_is(ix.accounts@[1], a.mint@, false, false)
            &&& meta_is(ix.accounts@[2], a.mint_authority@, true, false)
            &&& meta_is(ix.accounts@[3], a.payer@, true, true)
            &&& meta_is(ix.accounts@[4], a.machine_creator@, true, false)
            &&& meta_is(ix.accounts@[5], a.system_program@, false, false)
            &&& meta_is(ix.accounts@[6], a.rent@, false, false)
            &&& ix.data@ == create_metadata_data(
                name@,
                m.data.symbol@,
                uri@,
                m.data.seller_fee_basis_points,
                item_creator_tuples(a.machine_creator@, *m),
                m.data.is_mutable,
            )
        }),
        ({
            let ix = r.create_master_edition;
            &&& ix.program_id@ == token_metadata_program_bytes()
            &&& ix.accounts@.len() == 9
            &&& meta_is(ix.accounts@[0], a.master_edition@, false, true)
            &&& meta_is(ix.accounts@[1], a.mint@, false, true)
            &&& meta_is(ix.accounts@[2], a.machine_creator@, true, false)
            &&& meta_is(ix.accounts@[3], a.mint_authority@, true, false)
            &&& meta_is(ix.accounts@[4], a.payer@, true, true)
            &&& meta_is(ix.accounts@[5], a.metadata@, false, true)
            &&& meta_is(ix.accounts@[6], a.token_program@, false, false)
            &&& meta_is(ix.accounts@[7], a.system_program@, false, false)
            &&& meta_is(ix.accounts@[8], a.rent@, false, false)
            &&& ix.data@ == seq![17u8] + borsh_option_u64(Some(m.data.max_supply))
        }),
        ({
            let ix = r.update_metadata;
            let new_authority = if m.data.retain_authority {
                m.authority@
            } else {
                a.update_authority@
            };
            &&& ix.program_id@ == token_metadata_program_bytes()
            &&& ix.accounts@.len() == 2
            &&& meta_is(ix.accounts@[0], a.metadata@, false, true)
            &&& meta_is(ix.accounts@[1], a.machine_creator@, true, false)
            &&& ix.data@ == seq![15u8, 0u8] + borsh_option_key(Some(new_authority))
                + borsh_option_bool(Some(true)) + borsh_option_bool(None)
        }),
{
    let creators = creators_as_tuples(&metadata_creators(&a.machine_creator, m));
    assert(creator_tuples(creators@) =~= item_creator_tuples(a.machine_creator@, *m)) by {
        assert forall|i: int| 0 <= i < creators@.len() implies #[trigger] creator_tuples(
            creators@,
        )[i] == item_creator_tuples(a.machine_creator@, *m)[i] by {
            if i > 0 {
                assert(creators@[(i - 1) + 1] == creators@[i]);
            }
        }
    }
    let (program_id, metas, data) = token_metadata_create_metadata(
        a.metadata.bytes,
        a.mint.bytes,
        a.mint_authority.bytes,
        a.payer.bytes,
        a.machine_creator.bytes,
        true,
        a.system_program.bytes,
        a.rent.bytes,
        name,
        m.data.symbol.clone(),
        uri,
        m.data.seller_fee_basis_points,
        creators,
        m.data.is_mutable,
    );
    let create_metadata = instruction_from_parts(program_id, metas, data);
    let create_master_edition = token_metadata_create_master_edition(
        &a.master_edition,
        &a.mint,
        &a.machine_creator,
        &a.mint_authority,
        &a.payer,
        &a.metadata,
        &a.token_program,
        &a.system_program,
        &a.rent,
        Some(m.data.max_supply),
    );
    let new_authority = new_update_authority(m, &a.update_authority);
    let update_metadata = token_metadata_update(
        &a.metadata,
        &a.machine_creator,
        Some(new_authority),
        Some(true),
        None,
    );
    ItemInstructions { create_metadata, create_master_edition, update_metadata }
}

} // verus!
