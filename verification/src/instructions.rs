//! Building the protocol instructions this library submits.
//!
//! Each builder lays out the instruction's account list and argument bytes
//! exactly as the target program declares them: an 8-byte instruction
//! discriminator followed by the arguments in little-endian binary form.
//! The spec functions state every byte; the builders are proved to produce
//! exactly those instructions.

use vstd::prelude::*;

use crate::encode::{le_bytes, push_addr, push_byte, push_bytes, push_le};
use crate::message::{enc_message, msg_wf, CompiledMessage};
use crate::types::{Addr, Ix, IxAccount, IxAccountView, IxView};

verus! {

/// The target multisig program's address.
pub const SQUADS_PROGRAM_ID: [u8; 32] = [
    6, 129, 196, 206, 71, 226, 35, 104, 184, 177, 85, 94, 200, 135, 175, 9, 46, 252, 126, 251,
    182, 108, 163, 245, 47, 191, 104, 212, 172, 156, 183, 168,
];

/// The system program's address (all zero bytes).
pub const SYSTEM_PROGRAM_ID: [u8; 32] = [
    0, 0, 0, 0, 0, 0, 0, 0, 0, 0, 0, 0, 0, 0, 0, 0, 0, 0, 0, 0, 0, 0, 0, 0, 0, 0, 0, 0, 0, 0, 0,
    0,
];

/// The full member permission set: the Initiate, Vote and Execute bits.
pub const FULL_PERMISSIONS: u8 = 7;

/// Discriminators of the six program instructions used here.
pub const MULTISIG_CREATE_V2_DISC: [u8; 8] = [50, 221, 199, 93, 40, 245, 139, 233];

pub const VAULT_TRANSACTION_CREATE_DISC: [u8; 8] = [48, 250, 78, 168, 208, 226, 218, 211];

pub const PROPOSAL_CREATE_DISC: [u8; 8] = [220, 60, 73, 224, 30, 108, 79, 159];

pub const PROPOSAL_APPROVE_DISC: [u8; 8] = [144, 37, 164, 136, 188, 216, 42, 248];

pub const VAULT_TRANSACTION_EXECUTE_DISC: [u8; 8] = [194, 8, 161, 87, 153, 164, 25, 171];

pub const VAULT_TRANSACTION_ACCOUNTS_CLOSE_DISC: [u8; 8] = [196, 71, 187, 176, 2, 35, 170, 165];

/// An account slot in spec form.
pub open spec fn meta(addr: Seq<u8>, is_signer: bool, is_writable: bool) -> IxAccountView {
    IxAccountView { addr, is_signer, is_writable }
}

/// The creation arguments: no config authority, the given threshold, one
/// member with the given permission bitmask, the given time lock, a rent
/// collector, and no memo.
pub open spec fn multisig_create_v2_data(
    threshold: u16,
    member: Seq<u8>,
    permissions_mask: u8,
    time_lock: u32,
    rent_collector: Seq<u8>,
) -> Seq<u8> {
    MULTISIG_CREATE_V2_DISC@ + seq![0u8] + le_bytes(threshold as int, 2) + le_bytes(1, 4) + member
        + seq![permissions_mask] + le_bytes(time_lock as int, 4) + seq![1u8] + rent_collector
        + seq![0u8]
}

/// The "initialize multisig" instruction.
pub open spec fn multisig_create_v2_ix(
    program_config: Seq<u8>,
    treasury: Seq<u8>,
    multisig: Seq<u8>,
    create_key: Seq<u8>,
    creator: Seq<u8>,
    threshold: u16,
    member: Seq<u8>,
    permissions_mask: u8,
    time_lock: u32,
    rent_collector: Seq<u8>,
) -> IxView {
    IxView {
        program_id: SQUADS_PROGRAM_ID@,
        accounts: seq![
            meta(program_config, false, false),
            meta(treasury, false, true),
            meta(multisig, false, true),
            meta(create_key, true, false),
            meta(creator, true, true),
            meta(SYSTEM_PROGRAM_ID@, false, false),
        ],
        data: multisig_create_v2_data(threshold, member, permissions_mask, time_lock, rent_collector),
    }
}

/// Builds the "initialize multisig" instruction.
pub fn build_multisig_create_v2(
    program_config: &Addr,
    treasury: &Addr,
    multisig: &Addr,
    create_key: &Addr,
    creator: &Addr,
    threshold: u16,
    member: &Addr,
    permissions_mask: u8,
    time_lock: u32,
    rent_collector: &Addr,
) -> (r: Ix)
    ensures
        r@ == multisig_create_v2_ix(
            program_config@,
            treasury@,
            multisig@,
            create_key@,
            creator@,
            threshold,
            member@,
            permissions_mask,
            time_lock,
            rent_collector@,
        ),
{
    let mut data: Vec<u8> = Vec::new();
    push_bytes_arr8(&mut data, &MULTISIG_CREATE_V2_DISC);
    push_byte(&mut data, 0);
    push_le(&mut data, threshold as u64, 2);
    push_le(&mut data, 1, 4);
    push_addr(&mut data, member);
    push_byte(&mut data, permissions_mask);
    push_le(&mut data, time_lock as u64, 4);
    push_byte(&mut data, 1);
    push_addr(&mut data, rent_collector);
    push_byte(&mut data, 0);
    let mut accounts: Vec<IxAccount> = Vec::new();
    accounts.push(IxAccount { addr: *program_config, is_signer: false, is_writable: false });
    accounts.push(IxAccount { addr: *treasury, is_signer: false, is_writable: true });
    accounts.push(IxAccount { addr: *multisig, is_signer: false, is_writable: true });
    accounts.push(IxAccount { addr: *create_key, is_signer: true, is_writable: false });
    accounts.push(IxAccount { addr: *creator, is_signer: true, is_writable: true });
    accounts.push(
        IxAccount { addr: Addr { bytes: SYSTEM_PROGRAM_ID }, is_signer: false, is_writable: false },
    );
    let r = Ix { program_id: Addr { bytes: SQUADS_PROGRAM_ID }, accounts, data };
    proof {
        assert(r@.data =~= multisig_create_v2_data(
            threshold,
            member@,
            permissions_mask,
            time_lock,
            rent_collector@,
        ));
        assert(r@.accounts =~= multisig_create_v2_ix(
            program_config@,
            treasury@,
            multisig@,
            create_key@,
            creator@,
            threshold,
            member@,
            permissions_mask,
            time_lock,
            rent_collector@,
        ).accounts);
    }
    r
}

/// The "create vault transaction" arguments: the vault index, no ephemeral
/// signers, the compiled message bytes, and no memo.
pub open spec fn vault_transaction_create_data(vault_index: u8, msg: Seq<u8>) -> Seq<u8> {
    VAULT_TRANSACTION_CREATE_DISC@ + seq![vault_index] + seq![0u8] + le_bytes(msg.len() as int, 4)
        + msg + seq![0u8]
}

/// The "create vault transaction" instruction.
pub open spec fn vault_transaction_create_ix(
    multisig: Seq<u8>,
    transaction: Seq<u8>,
    creator: Seq<u8>,
    vault_index: u8,
    msg: Seq<u8>,
) -> IxView {
    IxView {
        program_id: SQUADS_PROGRAM_ID@,
        accounts: seq![
            meta(multisig, false, true),
            meta(transaction, false, true),
            meta(creator, true, false),
            meta(creator, true, true),
            meta(SYSTEM_PROGRAM_ID@, false, false),
        ],
        data: vault_transaction_create_data(vault_index, msg),
    }
}

/// Builds the "create vault transaction" instruction; the creator also pays
/// the new account's rent.
pub fn build_vault_transaction_create(
    multisig: &Addr,
    transaction: &Addr,
    creator: &Addr,
    vault_index: u8,
    msg: &Vec<u8>,
) -> (r: Ix)
    ensures
        r@ == vault_transaction_create_ix(multisig@, transaction@, creator@, vault_index, msg@),
{
    let mut data: Vec<u8> = Vec::new();
    push_bytes_arr8(&mut data, &VAULT_TRANSACTION_CREATE_DISC);
    push_byte(&mut data, vault_index);
    push_byte(&mut data, 0);
    push_le(&mut data, msg.len() as u64, 4);
    push_bytes(&mut data, msg);
    push_byte(&mut data, 0);
    let mut accounts: Vec<IxAccount> = Vec::new();
    accounts.push(IxAccount { addr: *multisig, is_signer: false, is_writable: true });
    accounts.push(IxAccount { addr: *transaction, is_signer: false, is_writable: true });
    accounts.push(IxAccount { addr: *creator, is_signer: true, is_writable: false });
    accounts.push(IxAccount { addr: *creator, is_signer: true, is_writable: true });
    accounts.push(
        IxAccount { addr: Addr { bytes: SYSTEM_PROGRAM_ID }, is_signer: false, is_writable: false },
    );
    let r = Ix { program_id: Addr { bytes: SQUADS_PROGRAM_ID }, accounts, data };
    proof {
        assert(r@.data =~= vault_transaction_create_data(vault_index, msg@));
        assert(r@.accounts =~= vault_transaction_create_ix(
            multisig@,
            transaction@,
            creator@,
            vault_index,
            msg@,
        ).accounts);
    }
    r
}

/// The "create proposal" arguments: the transaction index and the draft flag.
pub open spec fn proposal_create_data(transaction_index: u64, draft: bool) -> Seq<u8> {
    PROPOSAL_CREATE_DISC@ + le_bytes(transaction_index as int, 8) + seq![
        if draft {
            1u8
        } else {
            0u8
        },
    ]
}

/// The "create proposal" instruction.
pub open spec fn proposal_create_ix(
    multisig: Seq<u8>,
    proposal: Seq<u8>,
    creator: Seq<u8>,
    transaction_index: u64,
    draft: bool,
) -> IxView {
    IxView {
        program_id: SQUADS_PROGRAM_ID@,
        accounts: seq![
            meta(multisig, false, false),
            meta(proposal, false, true),
            meta(creator, true, false),
            meta(creator, true, true),
            meta(SYSTEM_PROGRAM_ID@, false, false),
        ],
        data: proposal_create_data(transaction_index, draft),
    }
}

/// Builds the "create proposal" instruction.
pub fn build_proposal_create(
    multisig: &Addr,
    proposal: &Addr,
    creator: &Addr,
    transaction_index: u64,
    draft: bool,
) -> (r: Ix)
    ensures
        r@ == proposal_create_ix(multisig@, proposal@, creator@, transaction_index, draft),
{
    let mut data: Vec<u8> = Vec::new();
    push_bytes_arr8(&mut data, &PROPOSAL_CREATE_DISC);
    push_le(&mut data, transaction_index, 8);
    push_byte(&mut data, if draft { 1 } else { 0 });
    let mut accounts: Vec<IxAccount> = Vec::new();
    accounts.push(IxAccount { addr: *multisig, is_signer: false, is_writable: false });
    accounts.push(IxAccount { addr: *proposal, is_signer: false, is_writable: true });
    accounts.push(IxAccount { addr: *creator, is_signer: true, is_writable: false });
    accounts.push(IxAccount { addr: *creator, is_signer: true, is_writable: true });
    accounts.push(
        IxAccount { addr: Addr { bytes: SYSTEM_PROGRAM_ID }, is_signer: false, is_writable: false },
    );
    let r = Ix { program_id: Addr { bytes: SQUADS_PROGRAM_ID }, accounts, data };
    proof {
        assert(r@.data =~= proposal_create_data(transaction_index, draft));
        assert(r@.accounts =~= proposal_create_ix(
            multisig@,
            proposal@,
            creator@,
            transaction_index,
            draft,
        ).accounts);
    }
    r
}

/// The "approve proposal" arguments: a vote with no memo.
pub open spec fn proposal_approve_data() -> Seq<u8> {
    PROPOSAL_APPROVE_DISC@ + seq![0u8]
}

/// The "approve proposal" instruction.
pub open spec fn proposal_approve_ix(multisig: Seq<u8>, member: Seq<u8>, proposal: Seq<u8>) -> IxView {
    IxView {
        program_id: SQUADS_PROGRAM_ID@,
        accounts: seq![
            meta(multisig, false, false),
            meta(member, true, true),
            meta(proposal, false, true),
        ],
        data: proposal_approve_data(),
    }
}

/// Builds the "approve proposal" instruction.
pub fn build_proposal_approve(multisig: &Addr, member: &Addr, proposal: &Addr) -> (r: Ix)
    ensures
        r@ == proposal_approve_ix(multisig@, member@, proposal@),
{
    let mut data: Vec<u8> = Vec::new();
    push_bytes_arr8(&mut data, &PROPOSAL_APPROVE_DISC);
    push_byte(&mut data, 0);
    let mut accounts: Vec<IxAccount> = Vec::new();
    accounts.push(IxAccount { addr: *multisig, is_signer: false, is_writable: false });
    accounts.push(IxAccount { addr: *member, is_signer: true, is_writable: true });
    accounts.push(IxAccount { addr: *proposal, is_signer: false, is_writable: true });
    let r = Ix { program_id: Addr { bytes: SQUADS_PROGRAM_ID }, accounts, data };
    proof {
        assert(r@.data =~= proposal_approve_data());
        assert(r@.accounts =~= proposal_approve_ix(multisig@, member@, proposal@).accounts);
    }
    r
}

/// The message accounts appended to the "execute" instruction: every key of
/// the compiled message in order, never as a signer, writable exactly when
/// its position in the key table says so.
pub open spec fn message_metas(m: crate::message::CompiledMessageView) -> Seq<IxAccountView> {
    Seq::new(
        m.account_keys.len(),
        |k: int|
            meta(
                m.account_keys[k],
                false,
                k < m.num_writable_signers || (m.num_signers <= k < m.num_signers
                    + m.num_writable_non_signers),
            ),
    )
}

/// The "execute vault transaction" instruction: the four protocol accounts,
/// then the message's accounts.
pub open spec fn vault_transaction_execute_ix(
    multisig: Seq<u8>,
    proposal: Seq<u8>,
    transaction: Seq<u8>,
    member: Seq<u8>,
    m: crate::message::CompiledMessageView,
) -> IxView {
    IxView {
        program_id: SQUADS_PROGRAM_ID@,
        accounts: seq![
            meta(multisig, false, false),
            meta(proposal, false, true),
            meta(transaction, false, false),
            meta(member, true, false),
        ] + message_metas(m),
        data: VAULT_TRANSACTION_EXECUTE_DISC@,
    }
}

/// Builds the "execute vault transaction" instruction from the same compiled
/// message that the creation step embeds.
pub fn build_vault_transaction_execute(
    multisig: &Addr,
    proposal: &Addr,
    transaction: &Addr,
    member: &Addr,
    m: &CompiledMessage,
) -> (r: Ix)
    ensures
        r@ == vault_transaction_execute_ix(multisig@, proposal@, transaction@, member@, m@),
{
    let mut data: Vec<u8> = Vec::new();
    push_bytes_arr8(&mut data, &VAULT_TRANSACTION_EXECUTE_DISC);
    let mut accounts: Vec<IxAccount> = Vec::new();
    accounts.push(IxAccount { addr: *multisig, is_signer: false, is_writable: false });
    accounts.push(IxAccount { addr: *proposal, is_signer: false, is_writable: true });
    accounts.push(IxAccount { addr: *transaction, is_signer: false, is_writable: false });
    accounts.push(IxAccount { addr: *member, is_signer: true, is_writable: false });
    let ghost head = accounts@.map(|q: int, a: IxAccount| a@);
    let mut k: usize = 0;
    while k < m.account_keys.len()
        invariant
            k <= m.account_keys@.len(),
            accounts@.len() == 4 + k,
            forall|q: int|
                0 <= q < accounts@.len() ==> (#[trigger] accounts@[q])@ == (seq![
                    meta(multisig@, false, false),
                    meta(proposal@, false, true),
                    meta(transaction@, false, false),
                    meta(member@, true, false),
                ] + message_metas(m@))[q],
        decreases m.account_keys@.len() - k,
    {
        let writable: bool = (k as u64) < (m.num_writable_signers as u64) || ((m.num_signers as u64)
            <= (k as u64) && (k as u64) < (m.num_signers as u64) + (
        m.num_writable_non_signers as u64));
        accounts.push(IxAccount { addr: m.account_keys[k], is_signer: false, is_writable: writable });
        k = k + 1;
    }
    let r = Ix { program_id: Addr { bytes: SQUADS_PROGRAM_ID }, accounts, data };
    proof {
        assert(r@.data =~= VAULT_TRANSACTION_EXECUTE_DISC@);
        assert(r@.accounts =~= vault_transaction_execute_ix(
            multisig@,
            proposal@,
            transaction@,
            member@,
            m@,
        ).accounts);
    }
    r
}

/// The "close vault transaction accounts" instruction.
pub open spec fn vault_transaction_accounts_close_ix(
    multisig: Seq<u8>,
    proposal: Seq<u8>,
    transaction: Seq<u8>,
    rent_collector: Seq<u8>,
) -> IxView {
    IxView {
        program_id: SQUADS_PROGRAM_ID@,
        accounts: seq![
            meta(multisig, false, false),
            meta(proposal, false, true),
            meta(transaction, false, true),
            meta(rent_collector, false, true),
            meta(SYSTEM_PROGRAM_ID@, false, false),
        ],
        data: VAULT_TRANSACTION_ACCOUNTS_CLOSE_DISC@,
    }
}

/// Builds the "close vault transaction accounts" instruction, reclaiming
/// rent to the collector.
pub fn build_vault_transaction_accounts_close(
    multisig: &Addr,
    proposal: &Addr,
    transaction: &Addr,
    rent_collector: &Addr,
) -> (r: Ix)
    ensures
        r@ == vault_transaction_accounts_close_ix(multisig@, proposal@, transaction@, rent_collector@),
{
    let mut data: Vec<u8> = Vec::new();
    push_bytes_arr8(&mut data, &VAULT_TRANSACTION_ACCOUNTS_CLOSE_DISC);
    let mut accounts: Vec<IxAccount> = Vec::new();
    accounts.push(IxAccount { addr: *multisig, is_signer: false, is_writable: false });
    accounts.push(IxAccount { addr: *proposal, is_signer: false, is_writable: true });
    accounts.push(IxAccount { addr: *transaction, is_signer: false, is_writable: true });
    accounts.push(IxAccount { addr: *rent_collector, is_signer: false, is_writable: true });
    accounts.push(
        IxAccount { addr: Addr { bytes: SYSTEM_PROGRAM_ID }, is_signer: false, is_writable: false },
    );
    let r = Ix { program_id: Addr { bytes: SQUADS_PROGRAM_ID }, accounts, data };
    proof {
        assert(r@.data =~= VAULT_TRANSACTION_ACCOUNTS_CLOSE_DISC@);
        assert(r@.accounts =~= vault_transaction_accounts_close_ix(
            multisig@,
            proposal@,
            transaction@,
            rent_collector@,
        ).accounts);
    }
    r
}

/// The system "transfer lamports" instruction: a four-byte tag of 2 and the
/// little-endian amount, from a funding account to a recipient.
pub open spec fn system_transfer_data(lamports: u64) -> Seq<u8> {
    le_bytes(2, 4) + le_bytes(lamports as int, 8)
}

/// The system transfer instruction.
pub open spec fn system_transfer_ix(from: Seq<u8>, to: Seq<u8>, lamports: u64) -> IxView {
    IxView {
        program_id: SYSTEM_PROGRAM_ID@,
        accounts: seq![meta(from, true, true), meta(to, false, true)],
        data: system_transfer_data(lamports),
    }
}

/// Builds a system transfer of `lamports` from `from` to `to`.
pub fn build_system_transfer(from: &Addr, to: &Addr, lamports: u64) -> (r: Ix)
    ensures
        r@ == system_transfer_ix(from@, to@, lamports),
{
    let mut data: Vec<u8> = Vec::new();
    push_le(&mut data, 2, 4);
    push_le(&mut data, lamports, 8);
    let mut accounts: Vec<IxAccount> = Vec::new();
    accounts.push(IxAccount { addr: *from, is_signer: true, is_writable: true });
    accounts.push(IxAccount { addr: *to, is_signer: false, is_writable: true });
    let r = Ix { program_id: Addr { bytes: SYSTEM_PROGRAM_ID }, accounts, data };
    proof {
        assert(r@.data =~= system_transfer_data(lamports));
        assert(r@.accounts =~= system_transfer_ix(from@, to@, lamports).accounts);
    }
    r
}

/// Appends a fixed eight-byte tag.
fn push_bytes_arr8(buf: &mut Vec<u8>, s: &[u8; 8])
    ensures
        final(buf)@ == old(buf)@ + s@,
{
    let mut i: usize = 0;
    while i < 8
        invariant
            i <= 8,
            buf@ == old(buf)@ + s@.take(i as int),
        decreases 8 - i,
    {
        buf.push(s[i]);
        proof {
            assert(buf@ =~= old(buf)@ + s@.take(i + 1));
        }
        i = i + 1;
    }
    proof {
        assert(s@.take(8) =~= s@);
    }
}

} // verus!
