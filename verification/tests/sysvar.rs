use mysolanaapp::pubkey::{spl_token_program_id, system_program_id, Pubkey};
use mysolanaapp::sysvar::{
    check_instructions, read_le_u64, read_pubkey, read_u16, SanitizeError, ScanError,
};

/// Lays out an instructions sysvar: the count, one offset per instruction, then each
/// instruction as its account count, 33 bytes per account and its program id.
fn sysvar(instructions: &[(u16, [u8; 32])]) -> Vec<u8> {
    let n = instructions.len();
    let mut data = vec![0u8; 2 + 2 * n];
    data[0..2].copy_from_slice(&(n as u16).to_le_bytes());
    for (i, (accounts, program)) in instructions.iter().enumerate() {
        let start = data.len() as u16;
        data[2 + 2 * i..4 + 2 * i].copy_from_slice(&start.to_le_bytes());
        data.extend_from_slice(&accounts.to_le_bytes());
        data.extend(std::iter::repeat(0xAB).take(*accounts as usize * 33));
        data.extend_from_slice(program);
    }
    data
}

#[test]
fn read_u16_reads_little_endian_and_advances() {
    let data = [0x34u8, 0x12, 0xff];
    let mut at = 0usize;
    assert_eq!(read_u16(&mut at, &data), Ok(0x1234));
    assert_eq!(at, 2);
    assert_eq!(read_u16(&mut at, &data), Err(SanitizeError::IndexOutOfBounds));
    assert_eq!(at, 2);
}

#[test]
fn read_pubkey_reads_32_bytes() {
    let mut data = vec![9u8];
    data.extend_from_slice(&[5u8; 32]);
    let mut at = 1usize;
    let k = read_pubkey(&mut at, &data).unwrap();
    assert_eq!(k.bytes, [5u8; 32]);
    assert_eq!(at, 33);
    let mut at = 2usize;
    assert!(read_pubkey(&mut at, &data).is_err());
    assert_eq!(at, 2);
}

#[test]
fn read_le_u64_matches_std() {
    let data: Vec<u8> = (0u8..16).map(|b| b.wrapping_mul(37).wrapping_add(11)).collect();
    let mut eight = [0u8; 8];
    eight.copy_from_slice(&data[8..16]);
    assert_eq!(read_le_u64(&data, 8), u64::from_le_bytes(eight));
    assert_eq!(read_le_u64(&[0xff; 8], 0), u64::MAX);
}

#[test]
fn allowed_instructions_are_admitted() {
    let data = sysvar(&[(2, system_program_id().bytes), (0, spl_token_program_id().bytes)]);
    assert!(check_instructions(&data).is_ok());
    assert!(check_instructions(&sysvar(&[])).is_ok());
}

#[test]
fn another_program_is_suspicious() {
    let data = sysvar(&[(1, spl_token_program_id().bytes), (3, [42u8; 32])]);
    match check_instructions(&data) {
        Err(ScanError::SuspiciousTransaction { index, program_id }) => {
            assert_eq!(index, 1);
            assert_eq!(program_id.bytes, [42u8; 32]);
        }
        other => panic!("unexpected {:?}", other),
    }
}

#[test]
fn unreadable_count_is_invalid_account_data() {
    assert!(matches!(check_instructions(&[7u8]), Err(ScanError::InvalidAccountData)));
    assert!(matches!(check_instructions(&[]), Err(ScanError::InvalidAccountData)));
}

#[test]
fn truncated_entry_is_unreadable() {
    let mut data = sysvar(&[(1, system_program_id().bytes)]);
    data.truncate(data.len() - 1);
    assert!(matches!(check_instructions(&data), Err(ScanError::UnreadableEntry { index: 0 })));
    // The count promises a second instruction whose offset is missing.
    let mut data = sysvar(&[(0, system_program_id().bytes)]);
    data[0] = 2;
    assert!(matches!(check_instructions(&data), Err(ScanError::UnreadableEntry { index: 1 })));
}

#[test]
fn suspicious_entry_is_reported_before_a_later_unreadable_one() {
    let mut data = sysvar(&[(0, [1u8; 32])]);
    data[0] = 5;
    let _ = Pubkey { bytes: [0; 32] };
    assert!(matches!(check_instructions(&data), Err(ScanError::SuspiciousTransaction { index: 0, .. })));
}
