//! Instructions for other programs, as a program builds them before invoking them.
use vstd::prelude::*;

use crate::pubkey::Pubkey;

verus! {

/// An account handed to an instruction, as a program sees it.
#[derive(Debug)]
pub struct AccountMeta {
    pub pubkey: Pubkey,
    pub is_signer: bool,
    pub is_writable: bool,
}

/// An instruction for another program, ready to be invoked.
#[derive(Debug)]
pub struct Instruction {
    pub program_id: Pubkey,
    pub accounts: Vec<AccountMeta>,
    pub data: Vec<u8>,
}

/// Why a program refuses.
#[derive(Debug, Clone, Copy, PartialEq, Eq, Structural)]
pub enum ProgramError {
    NotEnoughAccountKeys,
    InvalidSeeds,
    IncorrectProgramId,
}

/// The `n` little-endian bytes of `v`.
pub open spec fn le_bytes(v: nat, n: nat) -> Seq<u8>
    decreases n,
{
    if n == 0 {
        Seq::empty()
    } else {
        seq![(v % 256) as u8] + le_bytes(v / 256, (n - 1) as nat)
    }
}

/// Whether the account `m` is `key`, signing and writable as stated.
pub open spec fn meta_is(m: AccountMeta, key: Seq<u8>, is_signer: bool, is_writable: bool) -> bool {
    m.pubkey@ == key && m.is_signer == is_signer && m.is_writable == is_writable
}

/// Whether the accounts from `from` on are the `signers`, each signing and read-only, and
/// nothing follows them.
pub open spec fn signer_metas(metas: Seq<AccountMeta>, from: int, signers: Seq<Pubkey>) -> bool {
    &&& metas.len() == from + signers.len()
    &&& forall|i: int|
        0 <= i < signers.len() ==> meta_is(#[trigger] metas[from + i], signers[i]@, true, false)
}

} // verus!
