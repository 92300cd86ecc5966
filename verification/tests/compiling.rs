use smart_account::instructions::build_system_transfer;
use smart_account::message::{compile_message, message_bytes};
use smart_account::Addr;

#[test]
fn compiles_transfer_with_vault_in_its_signer_slot_and_exact_bytes() {
    let vault = Addr::new([5; 32]);
    let to = Addr::new([6; 32]);
    let ix = build_system_transfer(&vault, &to, 1);
    let m = compile_message(&vault, &vec![ix]).unwrap();
    assert_eq!(m.num_signers, 1);
    assert_eq!(m.num_writable_signers, 1);
    assert_eq!(m.num_writable_non_signers, 1);
    // the vault leads as the signer; the funding account is the vault
    // itself and resolves to that slot; then the recipient, writable;
    // then the program, read-only
    assert_eq!(m.account_keys.len(), 3);
    assert_eq!(m.account_keys[0].bytes, [5; 32]);
    assert_eq!(m.account_keys[1].bytes, [6; 32]);
    assert_eq!(m.account_keys[2].bytes, [0; 32]);
    assert_eq!(m.instructions.len(), 1);
    assert_eq!(m.instructions[0].program_id_index, 2);
    assert_eq!(m.instructions[0].account_indexes, vec![0, 1]);
    let mut expected_data = Vec::new();
    expected_data.extend_from_slice(&2u32.to_le_bytes());
    expected_data.extend_from_slice(&1u64.to_le_bytes());
    assert_eq!(m.instructions[0].data, expected_data);

    let bytes = message_bytes(&m);
    let mut expected = vec![1u8, 1, 1, 3];
    expected.extend_from_slice(&[5; 32]);
    expected.extend_from_slice(&[6; 32]);
    expected.extend_from_slice(&[0; 32]);
    expected.push(1); // one instruction
    expected.push(2); // program id position
    expected.push(2); // two account positions
    expected.extend_from_slice(&[0, 1]);
    expected.extend_from_slice(&12u16.to_le_bytes());
    expected.extend_from_slice(&expected_data);
    expected.push(0); // no address table lookups
    assert_eq!(bytes, expected);
}

/// Wherever and however an instruction declares the vault, its position
/// falls inside the signer region, so the program's positional rebuild
/// signs it.
#[test]
fn vault_occurrences_resolve_to_the_signer_slot() {
    let vault = Addr::new([5; 32]);
    let ix = smart_account::Ix {
        program_id: Addr::new([9; 32]),
        accounts: vec![
            smart_account::IxAccount {
                addr: Addr::new([1; 32]),
                is_signer: false,
                is_writable: true,
            },
            smart_account::IxAccount { addr: vault, is_signer: true, is_writable: true },
            smart_account::IxAccount {
                addr: Addr::new([2; 32]),
                is_signer: false,
                is_writable: false,
            },
        ],
        data: vec![7],
    };
    let m = compile_message(&vault, &vec![ix]).unwrap();
    assert_eq!(m.account_keys.len(), 4);
    assert_eq!(m.account_keys[0].bytes, [5; 32]);
    assert_eq!(m.instructions[0].account_indexes, vec![1, 0, 2]);
    let vault_pos = m.instructions[0].account_indexes[1];
    assert!(vault_pos < m.num_signers);
}

#[test]
fn compiles_empty_instruction_set() {
    let vault = Addr::new([5; 32]);
    let m = compile_message(&vault, &Vec::new()).unwrap();
    assert_eq!(m.num_signers, 1);
    assert_eq!(m.num_writable_non_signers, 0);
    assert_eq!(m.account_keys.len(), 1);
    assert!(m.instructions.is_empty());
}

#[test]
fn readonly_accounts_sit_after_writable_ones() {
    let vault = Addr::new([5; 32]);
    let ix = smart_account::Ix {
        program_id: Addr::new([9; 32]),
        accounts: vec![
            smart_account::IxAccount {
                addr: Addr::new([1; 32]),
                is_signer: false,
                is_writable: false,
            },
            smart_account::IxAccount {
                addr: Addr::new([2; 32]),
                is_signer: false,
                is_writable: true,
            },
        ],
        data: vec![42],
    };
    let m = compile_message(&vault, &vec![ix]).unwrap();
    // keys: vault, writable [2], read-only [1], program [9]
    assert_eq!(m.account_keys.len(), 4);
    assert_eq!(m.account_keys[1].bytes, [2; 32]);
    assert_eq!(m.account_keys[2].bytes, [1; 32]);
    assert_eq!(m.account_keys[3].bytes, [9; 32]);
    assert_eq!(m.num_writable_non_signers, 1);
    assert_eq!(m.instructions[0].account_indexes, vec![2, 1]);
    assert_eq!(m.instructions[0].program_id_index, 3);
}
