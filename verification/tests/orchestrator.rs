use smart_account::decode::{MULTISIG_DISCRIMINATOR, PROGRAM_CONFIG_DISCRIMINATOR};
use smart_account::error::Error;
use smart_account::instructions::{
    FULL_PERMISSIONS, MULTISIG_CREATE_V2_DISC, PROPOSAL_APPROVE_DISC, PROPOSAL_CREATE_DISC,
    SQUADS_PROGRAM_ID, VAULT_TRANSACTION_ACCOUNTS_CLOSE_DISC, VAULT_TRANSACTION_CREATE_DISC,
    VAULT_TRANSACTION_EXECUTE_DISC,
};
use smart_account::smart_account::{dummy, get_or_create, transaction};
use smart_account::{Action, Addr, Event, Multisig};

fn identity() -> Multisig {
    Multisig { creator: Addr::new([11; 32]), create_key: Addr::new([22; 32]) }
}

// the addresses a deployment's driver would derive with the ledger SDK
fn multisig_pda() -> Addr {
    Addr::new([33; 32])
}

fn config_pda() -> Addr {
    Addr::new([44; 32])
}

fn vault_pda() -> Addr {
    Addr::new([55; 32])
}

fn multisig_bytes(transaction_index: u64, member: [u8; 32]) -> Vec<u8> {
    let mut b = Vec::new();
    b.extend_from_slice(&MULTISIG_DISCRIMINATOR);
    b.extend_from_slice(&[22u8; 32]); // create key
    b.extend_from_slice(&[0u8; 32]); // no config authority
    b.extend_from_slice(&1u16.to_le_bytes());
    b.extend_from_slice(&0u32.to_le_bytes());
    b.extend_from_slice(&transaction_index.to_le_bytes());
    b.extend_from_slice(&transaction_index.to_le_bytes());
    b.push(1);
    b.extend_from_slice(&member);
    b.push(254);
    b.extend_from_slice(&1u32.to_le_bytes());
    b.extend_from_slice(&member);
    b.push(FULL_PERMISSIONS);
    b
}

fn program_config_bytes(treasury: [u8; 32]) -> Vec<u8> {
    let mut b = Vec::new();
    b.extend_from_slice(&PROGRAM_CONFIG_DISCRIMINATOR);
    b.extend_from_slice(&[9u8; 32]);
    b.extend_from_slice(&0u64.to_le_bytes());
    b.extend_from_slice(&treasury);
    b.extend_from_slice(&[0u8; 64]);
    b
}

/// A run's addressing is a pure function of its inputs: the first action
/// reads exactly the supplied multisig address, and two runs over the same
/// inputs behave alike.
#[test]
fn reads_the_supplied_multisig_address() {
    let id = identity();
    let (g1, first1) = get_or_create(&id, multisig_pda(), config_pda());
    let (g2, _) = get_or_create(&id, multisig_pda(), config_pda());
    assert_eq!(g1.multisig_pda, g2.multisig_pda);
    match first1 {
        Action::Read(a) => assert_eq!(a, multisig_pda()),
        other => panic!("expected a read, got {:?}", other),
    }
}

/// A fresh identity with no on-chain account: one creation submission, one
/// bounded wait, and the freshly read state is returned.
#[test]
fn fresh_identity_creates_once_and_returns_state() {
    let id = identity();
    let (g, first) = get_or_create(&id, multisig_pda(), config_pda());
    assert!(matches!(first, Action::Read(_)));
    let (g, a) = g.step(Event::AccountMissing);
    match a {
        Action::Read(p) => assert_eq!(p, config_pda()),
        other => panic!("expected the config read, got {:?}", other),
    }
    let (g, a) = g.step(Event::AccountData(program_config_bytes([7; 32])));
    let plan = match a {
        Action::Submit(p) => p,
        other => panic!("expected the creation submission, got {:?}", other),
    };
    assert!(plan.create_key_cosigns);
    assert_eq!(plan.payer, id.creator);
    assert_eq!(plan.instructions.len(), 1);
    let ix = &plan.instructions[0];
    assert_eq!(ix.program_id.bytes, SQUADS_PROGRAM_ID);
    assert_eq!(&ix.data[..8], &MULTISIG_CREATE_V2_DISC);
    // no config authority; threshold 1; one member (the identity) with the
    // full permission set
    assert_eq!(ix.data[8], 0);
    assert_eq!(&ix.data[9..11], &1u16.to_le_bytes());
    assert_eq!(&ix.data[11..15], &1u32.to_le_bytes());
    assert_eq!(&ix.data[15..47], &id.creator.bytes);
    assert_eq!(ix.data[47], FULL_PERMISSIONS);
    assert_eq!(ix.accounts[0].addr, config_pda());
    assert_eq!(ix.accounts[1].addr.bytes, [7; 32]); // treasury
    assert_eq!(ix.accounts[2].addr, multisig_pda());
    assert!(ix.accounts[3].is_signer); // create key co-signs
    assert_eq!(ix.accounts[3].addr, id.create_key);
    let (g, a) = g.step(Event::SubmitOk);
    assert!(matches!(a, Action::Wait));
    let (g, a) = g.step(Event::Waited);
    match a {
        Action::Read(p) => assert_eq!(p, multisig_pda()),
        other => panic!("expected the confirming re-read, got {:?}", other),
    }
    let (_, a) = g.step(Event::AccountData(multisig_bytes(0, id.creator.bytes)));
    match a {
        Action::Done(s) => {
            assert_eq!(s.transaction_index, 0);
            assert_eq!(s.threshold, 1);
            assert_eq!(s.members.len(), 1);
            assert_eq!(s.members[0].key, id.creator);
        },
        other => panic!("expected the decoded state, got {:?}", other),
    }
}

/// A second call that observes a ready multisig returns it immediately and
/// performs no write.
#[test]
fn ready_multisig_returns_without_writes() {
    let id = identity();
    let (g, _) = get_or_create(&id, multisig_pda(), config_pda());
    let (_, a) = g.step(Event::AccountData(multisig_bytes(5, id.creator.bytes)));
    match a {
        Action::Done(s) => assert_eq!(s.transaction_index, 5),
        other => panic!("expected the decoded state, got {:?}", other),
    }
}

/// Unrelated data under the multisig address fails the run and never
/// reaches the create branch.
#[test]
fn wrong_discriminator_fails_and_does_not_create() {
    let id = identity();
    let (g, _) = get_or_create(&id, multisig_pda(), config_pda());
    let mut bad = multisig_bytes(0, id.creator.bytes);
    bad[3] ^= 0x55;
    let (g, a) = g.step(Event::AccountData(bad));
    assert!(matches!(a, Action::Fail(Error::AccountDecodeError)));
    assert!(matches!(g.phase, smart_account::smart_account::GocPhase::Finished));
}

#[test]
fn absent_program_config_is_a_hard_error() {
    let id = identity();
    let (g, _) = get_or_create(&id, multisig_pda(), config_pda());
    let (g, _) = g.step(Event::AccountMissing);
    let (_, a) = g.step(Event::AccountMissing);
    assert!(matches!(a, Action::Fail(Error::AccountNotFound)));
}

#[test]
fn transport_failure_is_surfaced_unchanged() {
    let id = identity();
    let (g, _) = get_or_create(&id, multisig_pda(), config_pda());
    let (_, a) = g.step(Event::TransportFailed);
    assert!(matches!(a, Action::Fail(Error::TransportError)));
}

#[test]
fn unconfirmed_creation_is_reported_after_the_wait() {
    let id = identity();
    let (g, _) = get_or_create(&id, multisig_pda(), config_pda());
    let (g, _) = g.step(Event::AccountMissing);
    let (g, _) = g.step(Event::AccountData(program_config_bytes([7; 32])));
    let (g, _) = g.step(Event::SubmitOk);
    let (g, _) = g.step(Event::Waited);
    let (_, a) = g.step(Event::AccountMissing);
    assert!(matches!(a, Action::Fail(Error::CreationUnconfirmed)));
}

/// An existing multisig at transaction index 3: the bundle asks for the
/// derivations of index 4 and submits the five instructions of the four
/// protocol steps in order - create (vault transaction + proposal),
/// approve, execute, close - at the derived addresses.
#[test]
fn execute_bundle_consumes_next_index_in_order() {
    let id = identity();
    let (t, first) = dummy(&id, multisig_pda(), vault_pda());
    assert!(matches!(first, Action::Read(_)));
    let (t, a) = t.step(Event::AccountData(multisig_bytes(3, id.creator.bytes)));
    match a {
        Action::Derive { multisig, transaction_index } => {
            assert_eq!(multisig, multisig_pda());
            assert_eq!(transaction_index, 4);
        },
        other => panic!("expected the derivation request, got {:?}", other),
    }
    let proposal = Addr::new([77; 32]);
    let transaction_msg = Addr::new([88; 32]);
    let (t, a) = t.step(Event::Derived { proposal, transaction: transaction_msg });
    let plan = match a {
        Action::Submit(p) => p,
        other => panic!("expected the bundle submission, got {:?}", other),
    };
    assert!(!plan.create_key_cosigns);
    assert_eq!(plan.payer, id.creator);
    assert_eq!(plan.instructions.len(), 5);
    assert_eq!(&plan.instructions[0].data[..8], &VAULT_TRANSACTION_CREATE_DISC);
    assert_eq!(&plan.instructions[1].data[..8], &PROPOSAL_CREATE_DISC);
    assert_eq!(&plan.instructions[2].data[..8], &PROPOSAL_APPROVE_DISC);
    assert_eq!(&plan.instructions[3].data[..8], &VAULT_TRANSACTION_EXECUTE_DISC);
    assert_eq!(&plan.instructions[4].data[..8], &VAULT_TRANSACTION_ACCOUNTS_CLOSE_DISC);
    // the proposal is created for index 4, not as a draft, at the derived
    // addresses
    assert_eq!(&plan.instructions[1].data[8..16], &4u64.to_le_bytes());
    assert_eq!(plan.instructions[1].data[16], 0);
    assert_eq!(plan.instructions[0].accounts[1].addr, transaction_msg);
    assert_eq!(plan.instructions[1].accounts[1].addr, proposal);
    assert_eq!(plan.instructions[3].accounts[1].addr, proposal);
    assert_eq!(plan.instructions[3].accounts[2].addr, transaction_msg);
    // every protocol instruction targets the multisig program
    for ix in &plan.instructions {
        assert_eq!(ix.program_id.bytes, SQUADS_PROGRAM_ID);
    }
    // the create instruction embeds a non-empty compiled message
    let msg_len = u32::from_le_bytes(plan.instructions[0].data[10..14].try_into().unwrap());
    assert!(msg_len > 0);
    let (_, a) = t.step(Event::SubmitOk);
    match a {
        Action::Executed(i) => assert_eq!(i, 4),
        other => panic!("expected the consumed index, got {:?}", other),
    }
}

/// A saturated transaction counter cannot accept another proposal.
#[test]
fn saturated_index_is_rejected() {
    let id = identity();
    let (t, _) = dummy(&id, multisig_pda(), vault_pda());
    let (_, a) = t.step(Event::AccountData(multisig_bytes(u64::MAX, id.creator.bytes)));
    assert!(matches!(a, Action::Fail(Error::IndexExhausted)));
}

#[test]
fn execute_against_missing_multisig_fails() {
    let id = identity();
    let (t, _) = transaction(&id, multisig_pda(), vault_pda(), Vec::new());
    let (_, a) = t.step(Event::AccountMissing);
    assert!(matches!(a, Action::Fail(Error::AccountNotFound)));
}

/// An instruction with more accounts than the message format can index
/// yields the compile error.
#[test]
fn oversized_instruction_set_yields_compile_error() {
    let id = identity();
    let mut accounts = Vec::new();
    for i in 0..300u32 {
        let mut bytes = [0u8; 32];
        bytes[..4].copy_from_slice(&i.to_le_bytes());
        accounts.push(smart_account::IxAccount {
            addr: Addr::new(bytes),
            is_signer: false,
            is_writable: false,
        });
    }
    let big = smart_account::Ix {
        program_id: Addr::new([1; 32]),
        accounts,
        data: Vec::new(),
    };
    let (t, _) = transaction(&id, multisig_pda(), vault_pda(), vec![big]);
    let (t, _) = t.step(Event::AccountData(multisig_bytes(0, id.creator.bytes)));
    let (_, a) = t.step(Event::Derived {
        proposal: Addr::new([77; 32]),
        transaction: Addr::new([88; 32]),
    });
    assert!(matches!(a, Action::Fail(Error::CompileError)));
}
