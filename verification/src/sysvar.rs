//! Reading the instructions sysvar and the recent-blockhashes sysvar.
use vstd::prelude::*;

use crate::pubkey::{
    allowed_program_ids, associated_token_program_bytes, breeding_machine_program_bytes,
    is_allowed_program, spl_token_program_bytes, system_program_bytes, Pubkey,
};

verus! {

/// Why a read from a byte buffer failed.
#[derive(Debug, PartialEq, Eq, Structural)]
pub enum SanitizeError {
    IndexOutOfBounds,
    ValueOutOfBounds,
}

/// The little-endian `u16` stored at `at`, if two bytes are there.
pub open spec fn spec_read_u16(data: Seq<u8>, at: int) -> Option<u16> {
    if 0 <= at && at + 2 <= data.len() {
        Some((data[at] + 256 * data[at + 1]) as u16)
    } else {
        None
    }
}

/// The 32 bytes stored at `at`, if they are there.
pub open spec fn spec_read_pubkey(data: Seq<u8>, at: int) -> Option<Seq<u8>> {
    if 0 <= at && at + 32 <= data.len() {
        Some(data.subrange(at, at + 32))
    } else {
        None
    }
}

/// The little-endian `u64` made of the eight bytes from `at`.
pub open spec fn spec_le_u64(data: Seq<u8>, at: int) -> int {
    data[at] + 0x100 * data[at + 1] + 0x1_0000 * data[at + 2] + 0x100_0000 * data[at + 3]
        + 0x1_0000_0000 * data[at + 4] + 0x100_0000_0000 * data[at + 5]
        + 0x1_0000_0000_0000 * data[at + 6] + 0x100_0000_0000_0000 * data[at + 7]
}

/// Reads a little-endian `u16` at `*current` and moves `*current` past it.
pub fn read_u16(current: &mut usize, data: &[u8]) -> (r: Result<u16, SanitizeError>)
    requires
        *old(current) + 2 <= usize::MAX,
    ensures
        r matches Ok(v) ==> spec_read_u16(data@, *old(current) as int) == Some(v)
            && *final(current) == *old(current) + 2,
        r is Err ==> spec_read_u16(data@, *old(current) as int) is None
            && *final(current) == *old(current) && r == Err::<u16, SanitizeError>(
            SanitizeError::IndexOutOfBounds,
        ),
{
    if data.len() < *current + 2 {
        return Err(SanitizeError::IndexOutOfBounds);
    }
    let lo = data[*current];
    let hi = data[*current + 1];
    let e: u16 = lo as u16 + 256 * (hi as u16);
    *current = *current + 2;
    Ok(e)
}

/// Reads a 32-byte address at `*current` and moves `*current` past it.
pub fn read_pubkey(current: &mut usize, data: &[u8]) -> (r: Result<Pubkey, SanitizeError>)
    requires
        *old(current) + 32 <= usize::MAX,
    ensures
        r matches Ok(k) ==> spec_read_pubkey(data@, *old(current) as int) == Some(k@)
            && *final(current) == *old(current) + 32,
        r is Err ==> spec_read_pubkey(data@, *old(current) as int) is None
            && *final(current) == *old(current) && r == Err::<Pubkey, SanitizeError>(
            SanitizeError::IndexOutOfBounds,
        ),
{
    if data.len() < *current + 32 {
        return Err(SanitizeError::IndexOutOfBounds);
    }
    let start = *current;
    let mut bytes = [0u8; 32];
    let mut i: usize = 0;
    while i < 32
        invariant
            0 <= i <= 32,
            start + 32 <= data@.len(),
            start + 32 <= usize::MAX,
            bytes@.len() == 32,
            forall|j: int| 0 <= j < i ==> bytes@[j] == data@[start + j],
        decreases 32 - i,
    {
        bytes[i] = data[start + i];
        i = i + 1;
    }
    let k = Pubkey { bytes };
    assert(k@ =~= data@.subrange(start as int, start + 32));
    *current = start + 32;
    Ok(k)
}

/// The little-endian `u64` held by `data[at..at + 8]`.
pub fn read_le_u64(data: &[u8], at: usize) -> (v: u64)
    requires
        at + 8 <= data@.len(),
    ensures
        v == spec_le_u64(data@, at as int),
{
    let b0 = data[at] as u64;
    let b1 = data[at + 1] as u64;
    let b2 = data[at + 2] as u64;
    let b3 = data[at + 3] as u64;
    let b4 = data[at + 4] as u64;
    let b5 = data[at + 5] as u64;
    let b6 = data[at + 6] as u64;
    let b7 = data[at + 7] as u64;
    b0 + 0x100 * b1 + 0x1_0000 * b2 + 0x100_0000 * b3 + 0x1_0000_0000 * b4 + 0x100_0000_0000 * b5
        + 0x1_0000_0000_0000 * b6 + 0x100_0000_0000_0000 * b7
}

/// Why the instructions sysvar does not admit the mint.
#[derive(Debug)]
pub enum ScanError {
    /// The instruction count at the head of the sysvar cannot be read.
    InvalidAccountData,
    /// The entry for the instruction at this position cannot be read
    /// (its offset, its account count or its program id lies past the end,
    /// or the offset of its slot overflows a `u16`).
    UnreadableEntry { index: u16 },
    /// The instruction at `index` calls a program that is not allowed.
    SuspiciousTransaction { index: u16, program_id: Pubkey },
}

/// What a scan of the instructions sysvar comes to, with addresses as byte sequences.
pub enum ScanOutcome {
    Admitted,
    InvalidAccountData,
    UnreadableEntry(int),
    SuspiciousTransaction(int, Seq<u8>),
}

/// The program id of the `index`-th instruction recorded in the sysvar:
/// the slot at `2 + 2 * index` holds the offset of the instruction,
/// which begins with its account count, then 33 bytes per account,
/// then the program id.
pub open spec fn entry_program_id(data: Seq<u8>, index: int) -> Option<Seq<u8>> {
    if 2 * index > u16::MAX {
        None
    } else {
        match spec_read_u16(data, 2 + 2 * index) {
            None => None,
            Some(start) => match spec_read_u16(data, start as int) {
                None => None,
                Some(n) => spec_read_pubkey(data, start + 2 + 33 * n),
            },
        }
    }
}

/// The outcome of checking the entries `index..count` in order.
pub open spec fn scan_entries(data: Seq<u8>, index: int, count: int) -> ScanOutcome
    decreases count - index,
{
    if index >= count {
        ScanOutcome::Admitted
    } else {
        match entry_program_id(data, index) {
            None => ScanOutcome::UnreadableEntry(index),
            Some(id) => if allowed_program_ids().contains(id) {
                scan_entries(data, index + 1, count)
            } else {
                ScanOutcome::SuspiciousTransaction(index, id)
            },
        }
    }
}

/// The outcome of checking every instruction recorded in the sysvar.
pub open spec fn scan_instructions(data: Seq<u8>) -> ScanOutcome {
    match spec_read_u16(data, 0) {
        None => ScanOutcome::InvalidAccountData,
        Some(count) => scan_entries(data, 0, count as int),
    }
}

/// The outcome that a result of `check_instructions` stands for.
pub open spec fn outcome_of(r: Result<(), ScanError>) -> ScanOutcome {
    match r {
        Ok(()) => ScanOutcome::Admitted,
        Err(ScanError::InvalidAccountData) => ScanOutcome::InvalidAccountData,
        Err(ScanError::UnreadableEntry { index }) => ScanOutcome::UnreadableEntry(index as int),
        Err(ScanError::SuspiciousTransaction { index, program_id }) =>
            ScanOutcome::SuspiciousTransaction(index as int, program_id@),
    }
}

proof fn lemma_admitted_entries(data: Seq<u8>, index: int, count: int)
    requires
        scan_entries(data, index, count) == ScanOutcome::Admitted,
        0 <= index,
    ensures
        forall|i: int|
            index <= i < count ==> (#[trigger] entry_program_id(data, i) matches Some(id)
                && allowed_program_ids().contains(id)),
    decreases count - index,
{
    if index < count {
        lemma_admitted_entries(data, index + 1, count);
    }
}

/// A transaction is admitted only if its instruction count can be read and every one of
/// its instructions names one of the allowed programs.
pub proof fn law_admitted_transactions_call_allowed_programs(data: Seq<u8>)
    requires
        scan_instructions(data) == ScanOutcome::Admitted,
    ensures
        spec_read_u16(data, 0) is Some,
        forall|i: int|
            0 <= i < spec_read_u16(data, 0)->0 ==> (#[trigger] entry_program_id(data, i) matches Some(
                id,
            ) && allowed_program_ids().contains(id)),
{
    lemma_admitted_entries(data, 0, spec_read_u16(data, 0)->0 as int);
}

/// Checks that every instruction of the transaction calls one of the allowed programs
/// (this program, the token program, the system program, the associated token program),
/// stopping at the first entry that cannot be read or calls another program.
pub fn check_instructions(data: &[u8]) -> (r: Result<(), ScanError>)
    ensures
        outcome_of(r) == scan_instructions(data@),
{
    let mut idx: usize = 0;
    let count = match read_u16(&mut idx, data) {
        Ok(n) => n,
        Err(_) => return Err(ScanError::InvalidAccountData),
    };
    let mut index: u16 = 0;
    while index < count
        invariant
            0 <= index <= count,
            spec_read_u16(data@, 0) == Some(count),
            scan_instructions(data@) == scan_entries(data@, index as int, count as int),
        decreases count - index,
    {
        if index > 32767 {
            return Err(ScanError::UnreadableEntry { index });
        }
        let mut current: usize = 2 + (index * 2) as usize;
        let start = match read_u16(&mut current, data) {
            Ok(v) => v,
            Err(_) => return Err(ScanError::UnreadableEntry { index }),
        };
        current = start as usize;
        let num_accounts = match read_u16(&mut current, data) {
            Ok(v) => v,
            Err(_) => return Err(ScanError::UnreadableEntry { index }),
        };
        current = current + (num_accounts as usize) * 33;
        let program_id = match read_pubkey(&mut current, data) {
            Ok(k) => k,
            Err(_) => return Err(ScanError::UnreadableEntry { index }),
        };
        if !is_allowed_program(&program_id) {
            return Err(ScanError::SuspiciousTransaction { index, program_id });
        }
        index = index + 1;
    }
    Ok(())
}

/// Whether `id` is one of the four programs a minting transaction may call: this program,
/// the token program, the system program or the associated token program.
pub open spec fn is_one_of_the_allowed_programs(id: Seq<u8>) -> bool {
    ||| id == breeding_machine_program_bytes()
    ||| id == spl_token_program_bytes()
    ||| id == system_program_bytes()
    ||| id == associated_token_program_bytes()
}

proof fn lemma_all_allowed_entries_admitted(data: Seq<u8>, index: int, count: int)
    requires
        0 <= index,
        forall|i: int|
            index <= i < count ==> (#[trigger] entry_program_id(data, i) matches Some(id)
                && is_one_of_the_allowed_programs(id)),
    ensures
        scan_entries(data, index, count) == ScanOutcome::Admitted,
    decreases count - index,
{
    if index < count {
        let id = entry_program_id(data, index)->0;
        assert(is_one_of_the_allowed_programs(id));
        assert(allowed_program_ids()[0] == breeding_machine_program_bytes());
        assert(allowed_program_ids()[1] == spl_token_program_bytes());
        assert(allowed_program_ids()[2] == system_program_bytes());
        assert(allowed_program_ids()[3] == associated_token_program_bytes());
        if id == breeding_machine_program_bytes() {
            assert(allowed_program_ids()[0] == id);
        } else if id == spl_token_program_bytes() {
            assert(allowed_program_ids()[1] == id);
        } else if id == system_program_bytes() {
            assert(allowed_program_ids()[2] == id);
        } else {
            assert(allowed_program_ids()[3] == id);
        }
        lemma_all_allowed_entries_admitted(data, index + 1, count);
    }
}

/// The scan refuses nothing it should admit: a transaction whose instruction count can be
/// read, and each of whose instructions names this program, the token program, the system
/// program or the associated token program, is admitted; and one naming any other program
/// is never admitted.
pub proof fn law_transactions_calling_allowed_programs_are_admitted(data: Seq<u8>)
    ensures
        (spec_read_u16(data, 0) matches Some(count) && forall|i: int|
            0 <= i < count ==> (#[trigger] entry_program_id(data, i) matches Some(id)
                && is_one_of_the_allowed_programs(id))) ==> scan_instructions(data)
            == ScanOutcome::Admitted,
        scan_instructions(data) == ScanOutcome::Admitted ==> forall|i: int|
            0 <= i < spec_read_u16(data, 0)->0 ==> (#[trigger] entry_program_id(data, i) matches Some(
                id,
            ) && is_one_of_the_allowed_programs(id)),
{
    if spec_read_u16(data, 0) is Some {
        let count = spec_read_u16(data, 0)->0 as int;
        if forall|i: int|
            0 <= i < count ==> (#[trigger] entry_program_id(data, i) matches Some(id)
                && is_one_of_the_allowed_programs(id)) {
            lemma_all_allowed_entries_admitted(data, 0, count);
        }
        if scan_instructions(data) == ScanOutcome::Admitted {
            law_admitted_transactions_call_allowed_programs(data);
            assert forall|i: int| 0 <= i < count implies (#[trigger] entry_program_id(data, i) matches Some(
                id,
            ) && is_one_of_the_allowed_programs(id)) by {
                let id = entry_program_id(data, i)->0;
                assert(allowed_program_ids().contains(id));
                let k = choose|k: int| 0 <= k < allowed_program_ids().len() && allowed_program_ids()[k] == id;
                assert(allowed_program_ids()[0] == breeding_machine_program_bytes());
                assert(allowed_program_ids()[1] == spl_token_program_bytes());
                assert(allowed_program_ids()[2] == system_program_bytes());
                assert(allowed_program_ids()[3] == associated_token_program_bytes());
            }
        }
    }
}

} // verus!
