use escrow::account::{next_account_info, Account};
use escrow::bytes::{read_u64_le, write_u64_le};
use escrow::error::{ErrorClass, EscrowError};
use escrow::instruction::{EscrowInstruction, TAG_FINALIZE_ESCROW, TAG_INIT_ESCROW};
use escrow::pubkey::{Pubkey, PUBKEY_BYTES};
use escrow::state::Escrow;

fn key(n: u8) -> Pubkey {
    Pubkey::new_from_array([n; 32])
}

fn sample_record() -> Escrow {
    Escrow {
        is_initialized: true,
        initializer_pubkey: key(1),
        temp_token_account_pubkey: key(2),
        initializer_token_to_receive_account_pubkey: key(3),
        expected_amount: 0x0102_0304_0506_0708,
    }
}

#[test]
fn read_u64_le_reads_least_significant_byte_first() {
    let bytes = [0xff, 0x08, 0x07, 0x06, 0x05, 0x04, 0x03, 0x02, 0x01, 0xee];
    assert_eq!(read_u64_le(&bytes, 1), 0x0102_0304_0506_0708);
    assert_eq!(read_u64_le(&bytes, 1), u64::from_le_bytes([8, 7, 6, 5, 4, 3, 2, 1]));
}

#[test]
fn read_u64_le_covers_the_whole_range() {
    assert_eq!(read_u64_le(&[0; 8], 0), 0);
    assert_eq!(read_u64_le(&[0xff; 8], 0), u64::MAX);
    assert_eq!(read_u64_le(&[0, 0, 0, 0, 0, 0, 0, 0x80], 0), 1 << 63);
    assert_eq!(read_u64_le(&[50, 0, 0, 0, 0, 0, 0, 0], 0), 50);
}

#[test]
fn write_u64_le_appends_eight_bytes() {
    let mut out = vec![9u8];
    write_u64_le(&mut out, 0x0102_0304_0506_0708);
    assert_eq!(out, vec![9, 8, 7, 6, 5, 4, 3, 2, 1]);
    let mut max = Vec::new();
    write_u64_le(&mut max, u64::MAX);
    assert_eq!(max, vec![0xff; 8]);
    let mut zero = Vec::new();
    write_u64_le(&mut zero, 0);
    assert_eq!(zero, vec![0; 8]);
}

#[test]
fn write_then_read_gives_the_value_back() {
    for value in [0u64, 1, 255, 256, 50, 100, 1 << 32, u64::MAX - 1, u64::MAX] {
        let mut out = Vec::new();
        write_u64_le(&mut out, value);
        assert_eq!(out, value.to_le_bytes().to_vec());
        assert_eq!(read_u64_le(&out, 0), value);
    }
}

#[test]
fn pubkey_keeps_its_bytes() {
    let mut bytes = [0u8; 32];
    for (i, b) in bytes.iter_mut().enumerate() {
        *b = i as u8;
    }
    let k = Pubkey::new_from_array(bytes);
    assert_eq!(k.to_bytes(), bytes);
    assert_eq!(k.bytes, bytes);
    assert_eq!(PUBKEY_BYTES, 32);
}

#[test]
fn pubkey_equality_is_byte_for_byte() {
    let a = key(7);
    let mut other = [7u8; 32];
    assert!(a == Pubkey::new_from_array(other));
    other[31] = 8;
    assert!(a != Pubkey::new_from_array(other));
    other[31] = 7;
    other[0] = 6;
    assert!(a != Pubkey::new_from_array(other));
}

#[test]
fn pubkey_reads_and_writes_in_place() {
    let mut data = vec![0xaa_u8; 3];
    key(5).write_to(&mut data);
    data.push(0xbb);
    assert_eq!(data.len(), 36);
    assert_eq!(&data[3..35], &[5u8; 32]);
    assert!(Pubkey::read_from(&data, 3) == key(5));
    let shifted = Pubkey::read_from(&data, 4);
    assert_eq!(shifted.bytes[31], 0xbb);
    assert_eq!(shifted.bytes[0], 5);
}

#[test]
fn unpack_init_escrow() {
    let mut data = vec![0u8];
    data.extend_from_slice(&50u64.to_le_bytes());
    assert_eq!(
        EscrowInstruction::unpack(&data),
        Ok(EscrowInstruction::InitEscrow { amount: 50 })
    );
    assert_eq!(TAG_INIT_ESCROW, 0);
}

#[test]
fn unpack_finalize_escrow() {
    let mut data = vec![1u8];
    data.extend_from_slice(&u64::MAX.to_le_bytes());
    assert_eq!(
        EscrowInstruction::unpack(&data),
        Ok(EscrowInstruction::FinalizeEscrow { amount: u64::MAX })
    );
    assert_eq!(TAG_FINALIZE_ESCROW, 1);
}

#[test]
fn unpack_ignores_bytes_after_the_amount() {
    let data = [0u8, 1, 2, 0, 0, 0, 0, 0, 0, 99, 98];
    assert_eq!(
        EscrowInstruction::unpack(&data),
        Ok(EscrowInstruction::InitEscrow { amount: 513 })
    );
}

#[test]
fn unpack_rejects_an_empty_payload() {
    assert_eq!(EscrowInstruction::unpack(&[]), Err(EscrowError::InvalidInstruction));
}

#[test]
fn unpack_rejects_a_truncated_payload() {
    assert_eq!(EscrowInstruction::unpack(&[0]), Err(EscrowError::InvalidInstruction));
    assert_eq!(
        EscrowInstruction::unpack(&[1, 0, 0, 0, 0, 0, 0, 0]),
        Err(EscrowError::InvalidInstruction)
    );
}

#[test]
fn unpack_rejects_an_unknown_tag() {
    for tag in [2u8, 3, 7, 255] {
        let mut data = vec![tag];
        data.extend_from_slice(&50u64.to_le_bytes());
        assert_eq!(EscrowInstruction::unpack(&data), Err(EscrowError::InvalidInstruction));
    }
}

#[test]
fn record_is_stored_in_105_bytes() {
    assert_eq!(Escrow::LEN, 105);
    let stored = sample_record().pack();
    assert_eq!(stored.len(), 105);
    assert_eq!(stored[0], 1);
    assert_eq!(&stored[1..33], &[1u8; 32]);
    assert_eq!(&stored[33..65], &[2u8; 32]);
    assert_eq!(&stored[65..97], &[3u8; 32]);
    assert_eq!(&stored[97..105], &[8, 7, 6, 5, 4, 3, 2, 1]);
}

#[test]
fn record_survives_storage() {
    let record = sample_record();
    assert_eq!(Escrow::unpack_unchecked(&record.pack()), Ok(record));
    let mut other = record;
    other.is_initialized = false;
    other.expected_amount = u64::MAX;
    assert_eq!(Escrow::unpack_unchecked(&other.pack()), Ok(other));
}

#[test]
fn record_of_another_length_is_refused() {
    assert_eq!(Escrow::unpack_unchecked(&[]), Err(EscrowError::InvalidAccountData));
    assert_eq!(Escrow::unpack_unchecked(&[0u8; 104]), Err(EscrowError::InvalidAccountData));
    assert_eq!(Escrow::unpack_unchecked(&[0u8; 106]), Err(EscrowError::InvalidAccountData));
    assert_eq!(Escrow::unpack_unchecked(&[0u8; 97]), Err(EscrowError::InvalidAccountData));
}

#[test]
fn zeroed_storage_is_the_closed_record() {
    let record = Escrow::unpack_unchecked(&[0u8; 105]).unwrap();
    assert!(!record.is_initialized());
    assert_eq!(record, Escrow::closed());
    assert_eq!(Escrow::closed().pack(), vec![0u8; 105]);
    assert_eq!(Escrow::closed().expected_amount, 0);
    assert!(Escrow::closed().initializer_pubkey == key(0));
}

#[test]
fn garbage_storage_is_read_as_not_live() {
    let garbage = [0xa7u8; 105];
    let record = Escrow::unpack_unchecked(&garbage).unwrap();
    assert!(!record.is_initialized());
    assert!(record.initializer_pubkey == key(0xa7));
    assert_eq!(record.expected_amount, 0xa7a7_a7a7_a7a7_a7a7);
    let mut flagged = [0u8; 105];
    flagged[0] = 2;
    assert!(!Escrow::unpack_unchecked(&flagged).unwrap().is_initialized());
    flagged[0] = 1;
    assert!(Escrow::unpack_unchecked(&flagged).unwrap().is_initialized());
}

#[test]
fn accounts_are_handed_out_in_order() {
    let accounts: Vec<Account> = (0..3u8)
        .map(|n| Account {
            key: key(n),
            owner: key(100),
            is_signer: n == 0,
            lamports: n as u64,
            data: vec![n],
        })
        .collect();
    let mut next = 0usize;
    let first = next_account_info(&accounts, &mut next).unwrap();
    assert!(first.key == key(0) && first.is_signer);
    assert_eq!(next, 1);
    let second = next_account_info(&accounts, &mut next).unwrap();
    assert!(second.key == key(1) && !second.is_signer);
    let third = next_account_info(&accounts, &mut next).unwrap();
    assert_eq!(third.data, vec![2]);
    assert_eq!(next, 3);
    assert_eq!(next_account_info(&accounts, &mut next), Err(EscrowError::NotEnoughAccounts));
    assert_eq!(next, 3);
    assert_eq!(next_account_info(&accounts, &mut next), Err(EscrowError::NotEnoughAccounts));
}

#[test]
fn an_empty_list_hands_out_nothing() {
    let mut next = 0usize;
    assert_eq!(next_account_info(&[], &mut next), Err(EscrowError::NotEnoughAccounts));
    assert_eq!(next, 0);
}

#[test]
fn every_error_has_its_class() {
    assert_eq!(EscrowError::MissingSignature.class(), ErrorClass::Authorization);
    assert_eq!(EscrowError::WrongProgram.class(), ErrorClass::Ownership);
    assert_eq!(EscrowError::AlreadyInitialized.class(), ErrorClass::State);
    assert_eq!(EscrowError::ProtocolViolation.class(), ErrorClass::State);
    assert_eq!(EscrowError::NotRentExempt.class(), ErrorClass::Resource);
    assert_eq!(EscrowError::InvalidRentOracle.class(), ErrorClass::Resource);
    assert_eq!(EscrowError::InvalidInstruction.class(), ErrorClass::Encoding);
    assert_eq!(EscrowError::NotEnoughAccounts.class(), ErrorClass::Encoding);
    assert_eq!(EscrowError::InvalidAccountData.class(), ErrorClass::Encoding);
    assert_eq!(EscrowError::AuthorityUnavailable.class(), ErrorClass::Collaborator);
}
