use smart_account::decode::{
    decode_multisig, decode_program_config, MULTISIG_DISCRIMINATOR, PROGRAM_CONFIG_DISCRIMINATOR,
};
use smart_account::error::Error;

/// Builds the byte image of a multisig account with one member.
fn multisig_bytes(
    create_key: [u8; 32],
    threshold: u16,
    transaction_index: u64,
    member: [u8; 32],
) -> Vec<u8> {
    let mut b = Vec::new();
    b.extend_from_slice(&MULTISIG_DISCRIMINATOR);
    b.extend_from_slice(&create_key);
    b.extend_from_slice(&[3u8; 32]); // config authority
    b.extend_from_slice(&threshold.to_le_bytes());
    b.extend_from_slice(&0u32.to_le_bytes()); // time lock
    b.extend_from_slice(&transaction_index.to_le_bytes());
    b.extend_from_slice(&transaction_index.to_le_bytes()); // stale index
    b.push(1); // rent collector present
    b.extend_from_slice(&member);
    b.push(254); // bump
    b.extend_from_slice(&1u32.to_le_bytes());
    b.extend_from_slice(&member);
    b.push(7);
    b
}

fn program_config_bytes(treasury: [u8; 32]) -> Vec<u8> {
    let mut b = Vec::new();
    b.extend_from_slice(&PROGRAM_CONFIG_DISCRIMINATOR);
    b.extend_from_slice(&[9u8; 32]); // authority
    b.extend_from_slice(&123u64.to_le_bytes()); // creation fee
    b.extend_from_slice(&treasury);
    b.extend_from_slice(&[0u8; 64]); // reserved
    b
}

#[test]
fn decodes_multisig_fields_exactly() {
    let data = multisig_bytes([1; 32], 1, 3, [2; 32]);
    let s = decode_multisig(&data).unwrap();
    assert_eq!(s.create_key.bytes, [1; 32]);
    assert_eq!(s.config_authority.bytes, [3; 32]);
    assert_eq!(s.threshold, 1);
    assert_eq!(s.time_lock, 0);
    assert_eq!(s.transaction_index, 3);
    assert_eq!(s.stale_transaction_index, 3);
    assert_eq!(s.rent_collector.unwrap().bytes, [2; 32]);
    assert_eq!(s.bump, 254);
    assert_eq!(s.members.len(), 1);
    assert_eq!(s.members[0].key.bytes, [2; 32]);
    assert_eq!(s.members[0].permissions_mask, 7);
}

#[test]
fn decodes_multisig_without_rent_collector() {
    let mut b = Vec::new();
    b.extend_from_slice(&MULTISIG_DISCRIMINATOR);
    b.extend_from_slice(&[1u8; 32]);
    b.extend_from_slice(&[3u8; 32]);
    b.extend_from_slice(&2u16.to_le_bytes());
    b.extend_from_slice(&5u32.to_le_bytes());
    b.extend_from_slice(&9u64.to_le_bytes());
    b.extend_from_slice(&8u64.to_le_bytes());
    b.push(0); // no rent collector
    b.push(255); // bump
    b.extend_from_slice(&0u32.to_le_bytes()); // no members
    let s = decode_multisig(&b).unwrap();
    assert_eq!(s.threshold, 2);
    assert_eq!(s.time_lock, 5);
    assert_eq!(s.transaction_index, 9);
    assert_eq!(s.stale_transaction_index, 8);
    assert!(s.rent_collector.is_none());
    assert!(s.members.is_empty());
}

#[test]
fn rejects_wrong_discriminator() {
    let mut data = multisig_bytes([1; 32], 1, 0, [2; 32]);
    data[0] ^= 0xff;
    assert!(matches!(decode_multisig(&data), Err(Error::AccountDecodeError)));
}

#[test]
fn rejects_truncated_multisig() {
    let mut data = multisig_bytes([1; 32], 1, 0, [2; 32]);
    data.pop();
    assert!(matches!(decode_multisig(&data), Err(Error::AccountDecodeError)));
}

#[test]
fn tolerates_trailing_allocation() {
    let mut data = multisig_bytes([1; 32], 1, 6, [2; 32]);
    data.extend_from_slice(&[0u8; 40]);
    let s = decode_multisig(&data).unwrap();
    assert_eq!(s.transaction_index, 6);
    assert_eq!(s.members.len(), 1);
}

#[test]
fn rejects_bad_option_tag() {
    let mut data = multisig_bytes([1; 32], 1, 0, [2; 32]);
    data[94] = 2;
    assert!(matches!(decode_multisig(&data), Err(Error::AccountDecodeError)));
}

#[test]
fn decodes_program_config_treasury() {
    let data = program_config_bytes([7; 32]);
    let c = decode_program_config(&data).unwrap();
    assert_eq!(c.authority.bytes, [9; 32]);
    assert_eq!(c.multisig_creation_fee, 123);
    assert_eq!(c.treasury.bytes, [7; 32]);
}

#[test]
fn rejects_truncated_program_config() {
    let mut data = program_config_bytes([7; 32]);
    data.pop();
    assert!(matches!(decode_program_config(&data), Err(Error::AccountDecodeError)));
}

#[test]
fn rejects_program_config_with_multisig_tag() {
    let mut data = program_config_bytes([7; 32]);
    data[..8].copy_from_slice(&MULTISIG_DISCRIMINATOR);
    assert!(matches!(decode_program_config(&data), Err(Error::AccountDecodeError)));
}
