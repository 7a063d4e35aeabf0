//! The SPL token program: the instructions built for it, and the token accounts read from
//! it.
use vstd::prelude::*;

use solana_program::pubkey::Pubkey as RuntimeKey;
use spl_token::instruction::{burn, transfer, transfer_checked};
use spl_token::solana_program::program_pack::Pack;
use spl_token::solana_program::pubkey::Pubkey as TokenKey;
use spl_token::state::Account;

use crate::instruction::{le_bytes, meta_is, signer_metas, AccountMeta, Instruction, ProgramError};
use crate::pubkey::{
    associated_token_program_bytes, associated_token_program_id, spl_token_program_bytes,
    spl_token_program_id, Pubkey,
};
use crate::sysvar::spec_le_u64;

verus! {

/// The data of a token `TransferChecked` instruction: its tag, the amount, the decimals.
pub open spec fn transfer_checked_data(amount: u64, decimals: u8) -> Seq<u8> {
    seq![12u8] + le_bytes(amount as nat, 8) + seq![decimals]
}

/// The data of a token `Transfer` instruction: its tag and the amount.
pub open spec fn transfer_data(amount: u64) -> Seq<u8> {
    seq![3u8] + le_bytes(amount as nat, 8)
}

/// The data of a token `Burn` instruction: its tag and the amount.
pub open spec fn burn_data(amount: u64) -> Seq<u8> {
    seq![8u8] + le_bytes(amount as nat, 8)
}

/// Builds a token program `TransferChecked` instruction with the token crate, with one
/// multisignature signer.
///
/// Calls `spl_token::instruction::transfer_checked`. As its source shows, it refuses
/// (`IncorrectProgramId`) a token program other than the SPL token program, and otherwise
/// gives an instruction for that program whose accounts are the source (writable), the
/// mint, the destination (writable), the authority (not a signer, since a signer is given)
/// and the signer, and whose data is the `TransferChecked` tag 12, the amount in
/// little-endian bytes and the decimals.
#[verifier::external_body]
pub(crate) fn token_transfer_checked(
    token_program: &Pubkey,
    source: &Pubkey,
    mint: &Pubkey,
    destination: &Pubkey,
    authority: &Pubkey,
    signer: &Pubkey,
    amount: u64,
    decimals: u8,
) -> (r: Result<Instruction, ProgramError>)
    ensures
        r is Err <==> token_program@ != spl_token_program_bytes(),
        r is Err ==> r->Err_0 == ProgramError::IncorrectProgramId,
        r matches Ok(ix) ==> {
            &&& ix.program_id@ == token_program@
            &&& ix.data@ == transfer_checked_data(amount, decimals)
            &&& ix.accounts@.len() == 5
            &&& meta_is(ix.accounts@[0], source@, false, true)
            &&& meta_is(ix.accounts@[1], mint@, false, false)
            &&& meta_is(ix.accounts@[2], destination@, false, true)
            &&& meta_is(ix.accounts@[3], authority@, false, false)
            &&& meta_is(ix.accounts@[4], signer@, true, false)
        },
{
    let k = |p: &Pubkey| TokenKey::new_from_array(p.bytes);
    let ix = transfer_checked(&k(token_program), &k(source), &k(mint), &k(destination), &k(authority), &[&k(signer)], amount, decimals)
        .map_err(|_| ProgramError::IncorrectProgramId)?;
    let b = |p: TokenKey| Pubkey { bytes: p.to_bytes() };
    let metas = ix.accounts.into_iter().map(|m| AccountMeta { pubkey: b(m.pubkey), is_signer: m.is_signer, is_writable: m.is_writable });
    Ok(Instruction { program_id: b(ix.program_id), accounts: metas.collect(), data: ix.data })
}

/// Builds a token program `Transfer` instruction with the token crate.
///
/// Calls `spl_token::instruction::transfer`. As its source shows, it refuses
/// (`IncorrectProgramId`) a token program other than the SPL token program, and otherwise
/// gives an instruction for that program whose accounts are the source (writable), the
/// destination (writable), the authority (a signer exactly when no multisignature signers
/// are given) and then each signer, and whose data is the `Transfer` tag 3 and the amount
/// in little-endian bytes.
#[verifier::external_body]
pub(crate) fn token_transfer(
    token_program: &Pubkey,
    source: &Pubkey,
    destination: &Pubkey,
    authority: &Pubkey,
    signers: &Vec<Pubkey>,
    amount: u64,
) -> (r: Result<Instruction, ProgramError>)
    ensures
        r is Err <==> token_program@ != spl_token_program_bytes(),
        r is Err ==> r->Err_0 == ProgramError::IncorrectProgramId,
        r matches Ok(ix) ==> {
            &&& ix.program_id@ == token_program@
            &&& ix.data@ == transfer_data(amount)
            &&& meta_is(ix.accounts@[0], source@, false, true)
            &&& meta_is(ix.accounts@[1], destination@, false, true)
            &&& meta_is(ix.accounts@[2], authority@, signers@.len() == 0, false)
            &&& signer_metas(ix.accounts@, 3, signers@)
        },
{
    let k = |p: &Pubkey| TokenKey::new_from_array(p.bytes);
    let keys: Vec<TokenKey> = signers.iter().map(k).collect();
    let refs: Vec<&TokenKey> = keys.iter().collect();
    let ix = transfer(&k(token_program), &k(source), &k(destination), &k(authority), &refs, amount).map_err(|_| ProgramError::IncorrectProgramId)?;
    let b = |p: TokenKey| Pubkey { bytes: p.to_bytes() };
    let metas = ix.accounts.into_iter().map(|m| AccountMeta { pubkey: b(m.pubkey), is_signer: m.is_signer, is_writable: m.is_writable });
    Ok(Instruction { program_id: b(ix.program_id), accounts: metas.collect(), data: ix.data })
}

/// Builds a token program `Burn` instruction with the token crate.
///
/// Calls `spl_token::instruction::burn`. As its source shows, it refuses
/// (`IncorrectProgramId`) a token program other than the SPL token program, and otherwise
/// gives an instruction for that program whose accounts are the token account to burn
/// from (writable), the mint (writable), the authority (a signer exactly when no
/// multisignature signers are given) and then each signer, and whose data is the `Burn`
/// tag 8 and the amount in little-endian bytes.
#[verifier::external_body]
pub(crate) fn token_burn(
    token_program: &Pubkey,
    account: &Pubkey,
    mint: &Pubkey,
    authority: &Pubkey,
    signers: &Vec<Pubkey>,
    amount: u64,
) -> (r: Result<Instruction, ProgramError>)
    ensures
        r is Err <==> token_program@ != spl_token_program_bytes(),
        r is Err ==> r->Err_0 == ProgramError::IncorrectProgramId,
        r matches Ok(ix) ==> {
            &&& ix.program_id@ == token_program@
            &&& ix.data@ == burn_data(amount)
            &&& meta_is(ix.accounts@[0], account@, false, true)
            &&& meta_is(ix.accounts@[1], mint@, false, true)
            &&& meta_is(ix.accounts@[2], authority@, signers@.len() == 0, false)
            &&& signer_metas(ix.accounts@, 3, signers@)
        },
{
    let k = |p: &Pubkey| TokenKey::new_from_array(p.bytes);
    let keys: Vec<TokenKey> = signers.iter().map(k).collect();
    let refs: Vec<&TokenKey> = keys.iter().collect();
    let ix = burn(&k(token_program), &k(account), &k(mint), &k(authority), &refs, amount).map_err(|_| ProgramError::IncorrectProgramId)?;
    let b = |p: TokenKey| Pubkey { bytes: p.to_bytes() };
    let metas = ix.accounts.into_iter().map(|m| AccountMeta { pubkey: b(m.pubkey), is_signer: m.is_signer, is_writable: m.is_writable });
    Ok(Instruction { program_id: b(ix.program_id), accounts: metas.collect(), data: ix.data })
}

/// Whether the four bytes at `at` are a valid tag of an optional field of a token
/// account: `1, 0, 0, 0` (present) or `0, 0, 0, 0` (absent).
pub open spec fn option_tag_ok(data: Seq<u8>, at: int) -> bool {
    &&& data[at] <= 1
    &&& data[at + 1] == 0
    &&& data[at + 2] == 0
    &&& data[at + 3] == 0
}

/// Whether `data` has the layout of a token account: 165 bytes, valid tags for the
/// delegate (at 72), the native amount (at 109) and the close authority (at 129), and an
/// account state (at 108) of at most 2.
pub open spec fn token_account_layout_ok(data: Seq<u8>) -> bool {
    &&& data.len() == 165
    &&& option_tag_ok(data, 72)
    &&& data[108] <= 2
    &&& option_tag_ok(data, 109)
    &&& option_tag_ok(data, 129)
}

/// The fields of a token account that the mint reads.
#[derive(Debug)]
pub struct TokenAccountFields {
    pub mint: Pubkey,
    pub owner: Pubkey,
    pub amount: u64,
    /// 0 uninitialized, 1 initialized, 2 frozen.
    pub state: u8,
}

/// Reads a token account with the token crate.
///
/// Calls `Account::unpack_unchecked` (the `Pack` implementation of
/// `spl_token::state::Account`). As its source shows, it accepts exactly the data of
/// `token_account_layout_ok`, and then the mint, the owner and the amount are the bytes at
/// 0, 32 and 64 (the amount little-endian) and the state is the byte at 108.
#[verifier::external_body]
fn unpack_token_account(data: &[u8]) -> (r: Option<TokenAccountFields>)
    ensures
        r is Some <==> token_account_layout_ok(data@),
        r matches Some(f) ==> {
            &&& f.mint@ == data@.subrange(0, 32)
            &&& f.owner@ == data@.subrange(32, 64)
            &&& f.amount == spec_le_u64(data@, 64)
            &&& f.state == data@[108]
        },
{
    let b = |p: TokenKey| Pubkey { bytes: p.to_bytes() };
    match Account::unpack_unchecked(data) {
        Ok(a) => Some(TokenAccountFields { mint: b(a.mint), owner: b(a.owner), amount: a.amount, state: a.state as u8 }),
        Err(_) => None,
    }
}

/// The address derived from `seeds` for `program_id` (the first bump seed that gives an
/// address off the curve), if there is one.
pub uninterp spec fn program_address(seeds: Seq<Seq<u8>>, program_id: Seq<u8>) -> Option<Seq<u8>>;

/// Derives a program address with `Pubkey::try_find_program_address` of the Solana program
/// crate, keeping the address and dropping the bump seed. The contract claims only that
/// the result is a function of the seeds and the program id (`program_address`), which
/// it computes by hashing.
#[verifier::external_body]
fn find_program_address(seeds: &Vec<Vec<u8>>, program_id: &Pubkey) -> (r: Option<Pubkey>)
    ensures
        r matches Some(a) ==> program_address(seeds.deep_view(), program_id@) == Some(a@),
        r is None ==> program_address(seeds.deep_view(), program_id@) is None,
{
    let refs: Vec<&[u8]> = seeds.iter().map(|s| s.as_slice()).collect();
    let found = RuntimeKey::try_find_program_address(&refs, &RuntimeKey::new_from_array(program_id.bytes));
    found.map(|(a, _)| Pubkey { bytes: a.to_bytes() })
}

/// The seeds of the associated token account of `wallet` for `mint`.
pub open spec fn ata_seeds(wallet: Seq<u8>, mint: Seq<u8>) -> Seq<Seq<u8>> {
    seq![wallet, spl_token_program_bytes(), mint]
}

/// The address of the associated token account of `wallet` for `mint`.
pub open spec fn associated_token_address(wallet: Seq<u8>, mint: Seq<u8>) -> Option<Seq<u8>> {
    program_address(ata_seeds(wallet, mint), associated_token_program_bytes())
}

/// Why an account is not the associated token account expected.
#[derive(Debug, Clone, Copy, PartialEq, Eq, Structural)]
pub enum AtaError {
    /// The account is not owned by the token program.
    IncorrectOwner,
    /// The account data is not a token account.
    InvalidAccountData,
    /// The token account is not initialized.
    Uninitialized,
    /// The token account belongs to another wallet, or is not at the associated address.
    PublicKeyMismatch,
    /// No associated address can be derived for the wallet and mint.
    NoProgramAddress,
}

/// What checking an account as the token account of `wallet` at `address` comes to: the
/// amount it holds, or why it is not that account (`address` is `None` when no address
/// could be derived).
pub open spec fn token_account_check(
    account_owner: Seq<u8>,
    key: Seq<u8>,
    data: Seq<u8>,
    wallet: Seq<u8>,
    address: Option<Seq<u8>>,
) -> Result<u64, AtaError> {
    if account_owner != spl_token_program_bytes() {
        Err(AtaError::IncorrectOwner)
    } else if !token_account_layout_ok(data) {
        Err(AtaError::InvalidAccountData)
    } else if data[108] == 0 {
        Err(AtaError::Uninitialized)
    } else if data.subrange(32, 64) != wallet {
        Err(AtaError::PublicKeyMismatch)
    } else {
        match address {
            None => Err(AtaError::NoProgramAddress),
            Some(a) => if a != key {
                Err(AtaError::PublicKeyMismatch)
            } else {
                Ok(spec_le_u64(data, 64) as u64)
            },
        }
    }
}

/// What checking an account as the associated token account of `wallet` for `mint`
/// comes to.
pub open spec fn ata_check(
    account_owner: Seq<u8>,
    key: Seq<u8>,
    data: Seq<u8>,
    wallet: Seq<u8>,
    mint: Seq<u8>,
) -> Result<u64, AtaError> {
    token_account_check(account_owner, key, data, wallet, associated_token_address(wallet, mint))
}

/// Checks that the account at `key`, owned by the program `account_owner` and holding
/// `data`, is a token account of `wallet` at `address` (the address it must lie at, `None`
/// when none could be derived), and gives the amount it holds: it must be owned by the
/// token program, be an initialized token account of `wallet`, and lie at `address`.
pub fn check_token_account(
    account_owner: &Pubkey,
    key: &Pubkey,
    data: &[u8],
    wallet: &Pubkey,
    address: &Option<Pubkey>,
) -> (r: Result<u64, AtaError>)
    ensures
        r == token_account_check(
            account_owner@,
            key@,
            data@,
            wallet@,
            match address {
                Some(a) => Some(a@),
                None => None,
            },
        ),
{
    if !account_owner.same_as(&spl_token_program_id()) {
        return Err(AtaError::IncorrectOwner);
    }
    let fields = match unpack_token_account(data) {
        Some(f) => f,
        None => return Err(AtaError::InvalidAccountData),
    };
    if fields.state == 0 {
        return Err(AtaError::Uninitialized);
    }
    if !fields.owner.same_as(wallet) {
        return Err(AtaError::PublicKeyMismatch);
    }
    match address {
        None => Err(AtaError::NoProgramAddress),
        Some(a) => {
            if !a.same_as(key) {
                Err(AtaError::PublicKeyMismatch)
            } else {
                Ok(fields.amount)
            }
        },
    }
}

/// The address of the associated token account of `wallet` for `mint`: the program
/// address derived from the wallet, the token program and the mint for the associated
/// token account program.
pub fn associated_token_account_address(wallet: &Pubkey, mint: &Pubkey) -> (r: Option<Pubkey>)
    ensures
        match associated_token_address(wallet@, mint@) {
            Some(a) => r matches Some(k) && k@ == a,
            None => r is None,
        },
{
    let seeds: Vec<Vec<u8>> = vec![key_bytes(wallet), key_bytes(&spl_token_program_id()), key_bytes(mint)];
    assert(seeds.deep_view() =~= ata_seeds(wallet@, mint@)) by {
        assert(seeds@[0].deep_view() =~= seeds@[0]@);
        assert(seeds@[1].deep_view() =~= seeds@[1]@);
        assert(seeds@[2].deep_view() =~= seeds@[2]@);
    }
    find_program_address(&seeds, &associated_token_program_id())
}

/// The bytes of an address.
fn key_bytes(k: &Pubkey) -> (v: Vec<u8>)
    ensures
        v@ == k@,
{
    let mut v: Vec<u8> = Vec::new();
    let mut i: usize = 0;
    while i < 32
        invariant
            0 <= i <= 32,
            k@.len() == 32,
            v@ == k@.subrange(0, i as int),
        decreases 32 - i,
    {
        v.push(k.bytes[i]);
        i = i + 1;
        assert(v@ =~= k@.subrange(0, i as int));
    }
    assert(k@.subrange(0, 32) =~= k@);
    v
}

/// Checks that the account at `key`, owned by the program `account_owner` and holding
/// `data`, is the associated token account of `wallet` for `mint`, and gives the amount it
/// holds (see `check_token_account`, with the address of
/// `associated_token_account_address`).
pub fn check_associated_token_account(
    account_owner: &Pubkey,
    key: &Pubkey,
    data: &[u8],
    wallet: &Pubkey,
    mint: &Pubkey,
) -> (r: Result<u64, AtaError>)
    ensures
        r == ata_check(account_owner@, key@, data@, wallet@, mint@),
{
    let address = associated_token_account_address(wallet, mint);
    check_token_account(account_owner, key, data, wallet, &address)
}

/// The eight bytes at 64..72 of a token account, read as a little-endian number.
pub open spec fn amount_bytes_value(data: Seq<u8>) -> int {
    data[64] + 256 * data[65] + 65536 * data[66] + 16777216 * data[67] + 4294967296 * data[68]
        + 1099511627776 * data[69] + 281474976710656 * data[70] + 72057594037927936 * data[71]
}

/// A token account check accepts exactly an initialized token account of the wallet,
/// owned by the token program, at the address asked for; and what it gives is the
/// account's whole amount, the little-endian `u64` at bytes 64..72 of its data, never cut
/// down.
pub proof fn law_accepted_token_account_gives_its_full_amount(
    account_owner: Seq<u8>,
    key: Seq<u8>,
    data: Seq<u8>,
    wallet: Seq<u8>,
    address: Option<Seq<u8>>,
    mint: Seq<u8>,
)
    ensures
        token_account_check(account_owner, key, data, wallet, address) matches Ok(a) ==> {
            &&& a as int == amount_bytes_value(data)
            &&& account_owner == spl_token_program_bytes()
            &&& data.len() == 165
            &&& data[108] == 1 || data[108] == 2
            &&& data.subrange(32, 64) == wallet
            &&& address == Some(key)
        },
        (account_owner == spl_token_program_bytes() && token_account_layout_ok(data)
            && data[108] != 0 && data.subrange(32, 64) == wallet && address == Some(key))
            ==> token_account_check(account_owner, key, data, wallet, address) is Ok,
        ata_check(account_owner, key, data, wallet, mint) matches Ok(a) ==> a as int
            == amount_bytes_value(data),
{
    if token_account_check(account_owner, key, data, wallet, address) is Ok {
        assert(0 <= amount_bytes_value(data) <= u64::MAX);
        assert(spec_le_u64(data, 64) == amount_bytes_value(data));
    }
    if ata_check(account_owner, key, data, wallet, mint) is Ok {
        assert(0 <= amount_bytes_value(data) <= u64::MAX);
        assert(spec_le_u64(data, 64) == amount_bytes_value(data));
    }
}

} // verus!
