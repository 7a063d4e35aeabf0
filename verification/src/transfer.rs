//! The token transfer program: moves a fixed amount of tokens from one account to another,
//! signed by the owner.
use vstd::prelude::*;

use crate::instruction::{meta_is, AccountMeta, Instruction, ProgramError};
use crate::pubkey::{spl_token_program_bytes, Pubkey};
use crate::token::{token_transfer_checked, transfer_checked_data};

verus! {

/// An account handed to the program: its address and whether it signed.
#[derive(Debug)]
pub struct AccountRef {
    pub key: Pubkey,
    pub is_signer: bool,
}

/// The amount every transfer moves, in the mint's smallest unit.
pub const TRANSFER_AMOUNT: u64 = 1_000_000_000;

/// The decimals of the mint the transfer is checked against.
pub const TRANSFER_DECIMALS: u8 = 9;

/// The token transfer to invoke and, in order, the positions of the accounts to hand it.
#[derive(Debug)]
pub struct TransferCall {
    pub instruction: Instruction,
    pub invoke_accounts: Vec<usize>,
}

/// What the transfer program gives for `accounts`: `NotEnoughAccountKeys` with fewer than
/// five, `InvalidSeeds` when the owner (the fourth) did not sign, and else the checked
/// transfer of `TRANSFER_AMOUNT` with `TRANSFER_DECIMALS` decimals from the first account,
/// of the mint (the second), to the third, signed by the owner, for the token program (the
/// fifth), to invoke with the fifth, first, second, third and fourth accounts.
pub open spec fn transfer_outcome(accounts: Seq<AccountRef>, r: Result<TransferCall, ProgramError>) -> bool {
    &&& accounts.len() < 5 ==> r == Err::<TransferCall, ProgramError>(
        ProgramError::NotEnoughAccountKeys,
    )
    &&& accounts.len() >= 5 && !accounts[3].is_signer ==> r == Err::<TransferCall, ProgramError>(
        ProgramError::InvalidSeeds,
    )
    &&& accounts.len() >= 5 && accounts[3].is_signer ==> (r matches Ok(call) && {
        let ix = call.instruction;
        &&& ix.program_id@ == accounts[4].key@
        &&& ix.data@ == transfer_checked_data(TRANSFER_AMOUNT, TRANSFER_DECIMALS)
        &&& ix.accounts@.len() == 5
        &&& meta_is(ix.accounts@[0], accounts[0].key@, false, true)
        &&& meta_is(ix.accounts@[1], accounts[1].key@, false, false)
        &&& meta_is(ix.accounts@[2], accounts[2].key@, false, true)
        &&& meta_is(ix.accounts@[3], accounts[3].key@, false, false)
        &&& meta_is(ix.accounts@[4], accounts[3].key@, true, false)
        &&& call.invoke_accounts@ == seq![4usize, 0, 1, 2, 3]
    })
}

/// An instruction as plain values: program id, accounts (address, signing, writable), data.
pub open spec fn instruction_view(ix: Instruction) -> (Seq<u8>, Seq<(Seq<u8>, bool, bool)>, Seq<u8>) {
    (
        ix.program_id@,
        ix.accounts@.map_values(|m: AccountMeta| (m.pubkey@, m.is_signer, m.is_writable)),
        ix.data@,
    )
}

/// Whether two account lists agree on their first five accounts (address and signing)
/// and on whether they hold five.
pub open spec fn same_first_five(a: Seq<AccountRef>, b: Seq<AccountRef>) -> bool {
    &&& (a.len() >= 5 <==> b.len() >= 5)
    &&& forall|i: int| 0 <= i < 5 && i < a.len() ==> a[i].key@ == b[i].key@ && a[i].is_signer
        == b[i].is_signer
}

/// The transfer program looks at nothing but its first five accounts: whatever the
/// program id, the instruction data and any further accounts, two calls whose first five
/// accounts agree give the same error, or the same instruction to invoke with the same
/// accounts.
pub proof fn law_transfer_depends_on_first_five_accounts(
    a: Seq<AccountRef>,
    b: Seq<AccountRef>,
    ra: Result<TransferCall, ProgramError>,
    rb: Result<TransferCall, ProgramError>,
)
    requires
        transfer_outcome(a, ra),
        transfer_outcome(b, rb),
        same_first_five(a, b),
    ensures
        ra is Err <==> rb is Err,
        ra is Err ==> ra->Err_0 == rb->Err_0,
        ra is Ok ==> instruction_view(ra->Ok_0.instruction) == instruction_view(rb->Ok_0.instruction)
            && ra->Ok_0.invoke_accounts@ == rb->Ok_0.invoke_accounts@,
{
    if a.len() >= 5 {
        assert(a[3].is_signer == b[3].is_signer);
        assert(a[4].key@ == b[4].key@);
        if a[3].is_signer {
            let ia = ra->Ok_0.instruction;
            let ib = rb->Ok_0.instruction;
            assert(a[0].key@ == b[0].key@ && a[1].key@ == b[1].key@ && a[2].key@ == b[2].key@
                && a[3].key@ == b[3].key@);
            assert(instruction_view(ia).1 =~= instruction_view(ib).1);
        }
    }
}

/// The accounts are, in order: the source token account, the mint, the destination token
/// account, the owner of the source, and the token program. Refuses when fewer than five
/// accounts are given (`NotEnoughAccountKeys`) or when the owner did not sign
/// (`InvalidSeeds`); else gives the checked transfer of `TRANSFER_AMOUNT` with
/// `TRANSFER_DECIMALS` decimals, signed by the owner, to invoke with the token program,
/// the source, the mint, the destination and the owner.
pub fn process_instruction(
    _program_id: &Pubkey,
    accounts: &Vec<AccountRef>,
    _instruction_data: &[u8],
) -> (r: Result<TransferCall, ProgramError>)
    requires
        accounts@.len() >= 5 && accounts@[3].is_signer ==> accounts@[4].key@
            == spl_token_program_bytes(),
    ensures
        transfer_outcome(accounts@, r),
{
    if accounts.len() < 5 {
        return Err(ProgramError::NotEnoughAccountKeys);
    }
    let from = &accounts[0];
    let token_account = &accounts[1];
    let to = &accounts[2];
    let owner = &accounts[3];
    let token_program = &accounts[4];
    if !owner.is_signer {
        return Err(ProgramError::InvalidSeeds);
    }
    let instruction = match token_transfer_checked(
        &token_program.key,
        &from.key,
        &token_account.key,
        &to.key,
        &owner.key,
        &owner.key,
        TRANSFER_AMOUNT,
        TRANSFER_DECIMALS,
    ) {
        Ok(ix) => ix,
        Err(e) => return Err(e),
    };
    let invoke_accounts: Vec<usize> = vec![4, 0, 1, 2, 3];
    assert(invoke_accounts@ =~= seq![4usize, 0, 1, 2, 3]);
    Ok(TransferCall { instruction, invoke_accounts })
}

} // verus!
