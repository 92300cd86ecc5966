//! The account reader: decoding raw on-chain account bytes into typed state.
//!
//! Accounts of the target program carry an 8-byte discriminator tag followed
//! by the account's fields in a fixed little-endian binary layout. The spec
//! functions here give that layout mathematically; the executable decoders
//! are proved to return exactly what the spec-level parse yields, so a
//! mismatched discriminator or a malformed field is always reported as
//! [`Error::AccountDecodeError`] and never silently accepted.

use vstd::prelude::*;

use crate::error::Error;
use crate::types::Addr;

verus! {

/// Discriminator tag opening every multisig configuration account.
pub const MULTISIG_DISCRIMINATOR: [u8; 8] = [224, 116, 121, 186, 68, 161, 79, 236];

/// Discriminator tag opening the global program-config account.
pub const PROGRAM_CONFIG_DISCRIMINATOR: [u8; 8] = [196, 210, 90, 231, 144, 149, 140, 63];

/// The little-endian value of the `n` bytes of `b` starting at `off`.
pub open spec fn le_val(b: Seq<u8>, off: int, n: nat) -> int
    decreases n,
{
    if n == 0 {
        0
    } else {
        b[off] + 256 * le_val(b, off + 1, (n - 1) as nat)
    }
}

/// 256 to the power `n`: the number of values `n` bytes can hold.
pub open spec fn pow256(n: nat) -> int
    decreases n,
{
    if n == 0 {
        1
    } else {
        256 * pow256((n - 1) as nat)
    }
}

pub proof fn lemma_pow256_le(a: nat, b: nat)
    requires
        a <= b,
    ensures
        pow256(a) <= pow256(b),
    decreases b,
{
    if a < b {
        lemma_pow256_le(a, (b - 1) as nat);
        lemma_pow256_pos((b - 1) as nat);
        assert(pow256(b) == 256 * pow256((b - 1) as nat));
        assert(pow256((b - 1) as nat) <= 256 * pow256((b - 1) as nat)) by (nonlinear_arith)
            requires
                pow256((b - 1) as nat) >= 1,
        {
        }
    }
}

pub proof fn lemma_pow256_pos(n: nat)
    ensures
        pow256(n) >= 1,
    decreases n,
{
    if n > 0 {
        lemma_pow256_pos((n - 1) as nat);
    }
}

/// A little-endian read of `n` bytes is bounded by `256^n`.
pub proof fn lemma_le_val_bound(b: Seq<u8>, off: int, n: nat)
    ensures
        0 <= le_val(b, off, n) < pow256(n),
    decreases n,
{
    if n > 0 {
        lemma_le_val_bound(b, off + 1, (n - 1) as nat);
        assert(0 <= le_val(b, off, n) < pow256(n)) by (nonlinear_arith)
            requires
                0 <= b[off] < 256,
                0 <= le_val(b, off + 1, (n - 1) as nat) < pow256((n - 1) as nat),
                le_val(b, off, n) == b[off] + 256 * le_val(b, off + 1, (n - 1) as nat),
                pow256(n) == 256 * pow256((n - 1) as nat),
        {
        }
    }
}

/// Mathematical image of one member record.
pub ghost struct MemberView {
    pub key: Seq<u8>,
    pub permissions_mask: u8,
}

/// One authorized member of the multisig and its permission bitmask.
#[derive(Clone, Debug)]
pub struct Member {
    pub key: Addr,
    pub permissions_mask: u8,
}

impl View for Member {
    type V = MemberView;

    open spec fn view(&self) -> MemberView {
        MemberView { key: self.key@, permissions_mask: self.permissions_mask }
    }
}

/// Mathematical image of the decoded multisig configuration account.
pub ghost struct MultisigStateView {
    pub create_key: Seq<u8>,
    pub config_authority: Seq<u8>,
    pub threshold: u16,
    pub time_lock: u32,
    pub transaction_index: u64,
    pub stale_transaction_index: u64,
    pub rent_collector: Option<Seq<u8>>,
    pub bump: u8,
    pub members: Seq<MemberView>,
}

/// The decoded on-chain state of one multisig configuration account.
///
/// This library only ever reads it: the ledger program itself advances
/// `transaction_index` as a side effect of each executed proposal.
#[derive(Clone, Debug)]
pub struct MultisigAccountState {
    pub create_key: Addr,
    pub config_authority: Addr,
    pub threshold: u16,
    pub time_lock: u32,
    pub transaction_index: u64,
    pub stale_transaction_index: u64,
    pub rent_collector: Option<Addr>,
    pub bump: u8,
    pub members: Vec<Member>,
}

impl View for MultisigAccountState {
    type V = MultisigStateView;

    open spec fn view(&self) -> MultisigStateView {
        MultisigStateView {
            create_key: self.create_key@,
            config_authority: self.config_authority@,
            threshold: self.threshold,
            time_lock: self.time_lock,
            transaction_index: self.transaction_index,
            stale_transaction_index: self.stale_transaction_index,
            rent_collector: match self.rent_collector {
                Some(a) => Some(a@),
                None => None,
            },
            bump: self.bump,
            members: Seq::new(self.members@.len(), |i: int| self.members@[i]@),
        }
    }
}

/// The member record laid out at byte offset `off`: a 32-byte key then a
/// one-byte permission bitmask.
pub open spec fn parse_member_at(b: Seq<u8>, off: int) -> MemberView {
    MemberView { key: b.subrange(off, off + 32), permissions_mask: b[off + 32] }
}

/// The multisig account layout, as one deterministic parse.
///
/// Bytes 0..8 hold the discriminator; then come the create key (8..40), the
/// config authority (40..72), the threshold (72..74, little endian), the
/// time lock (74..78), the transaction index (78..86), the stale transaction
/// index (86..94), an optional rent collector (a one-byte tag at 94, and the
/// key if the tag is 1), the derivation bump, and the member list (a 4-byte
/// little-endian count, then 33 bytes per member). Bytes beyond the member
/// list are ignored: an on-chain account may be allocated larger than its
/// content. A buffer too short for its own member count parses to `None`.
pub open spec fn parse_multisig(b: Seq<u8>) -> Option<MultisigStateView> {
    if b.len() < 95 || b.subrange(0, 8) != MULTISIG_DISCRIMINATOR@ {
        None
    } else {
        let tag = b[94];
        if tag != 0 && tag != 1 {
            None
        } else {
            let p: int = if tag == 1 { 127 } else { 95 };
            if b.len() < p + 5 {
                None
            } else {
                let n = le_val(b, p + 1, 4);
                if b.len() < p + 5 + 33 * n {
                    None
                } else {
                    Some(
                        MultisigStateView {
                            create_key: b.subrange(8, 40),
                            config_authority: b.subrange(40, 72),
                            threshold: le_val(b, 72, 2) as u16,
                            time_lock: le_val(b, 74, 4) as u32,
                            transaction_index: le_val(b, 78, 8) as u64,
                            stale_transaction_index: le_val(b, 86, 8) as u64,
                            rent_collector: if tag == 1 {
                                Some(b.subrange(95, 127))
                            } else {
                                None
                            },
                            bump: b[p],
                            members: Seq::new(n as nat, |i: int| parse_member_at(b, p + 5 + 33 * i)),
                        },
                    )
                }
            }
        }
    }
}

/// Mathematical image of the decoded program-config account.
pub ghost struct ProgramConfigView {
    pub authority: Seq<u8>,
    pub multisig_creation_fee: u64,
    pub treasury: Seq<u8>,
}

/// The decoded global program-config account. Creation needs its treasury
/// address as the fee destination.
#[derive(Clone, Copy, Debug)]
pub struct ProgramConfigState {
    pub authority: Addr,
    pub multisig_creation_fee: u64,
    pub treasury: Addr,
}

impl View for ProgramConfigState {
    type V = ProgramConfigView;

    open spec fn view(&self) -> ProgramConfigView {
        ProgramConfigView {
            authority: self.authority@,
            multisig_creation_fee: self.multisig_creation_fee,
            treasury: self.treasury@,
        }
    }
}

/// The program-config account layout: the discriminator, the authority
/// (8..40), the creation fee (40..48, little endian), the treasury (48..80),
/// and 64 reserved bytes, 144 bytes at least; bytes beyond are ignored.
pub open spec fn parse_program_config(b: Seq<u8>) -> Option<ProgramConfigView> {
    if b.len() < 144 || b.subrange(0, 8) != PROGRAM_CONFIG_DISCRIMINATOR@ {
        None
    } else {
        Some(
            ProgramConfigView {
                authority: b.subrange(8, 40),
                multisig_creation_fee: le_val(b, 40, 8) as u64,
                treasury: b.subrange(48, 80),
            },
        )
    }
}

/// Reads the `n <= 8` bytes at `off` as a little-endian integer.
fn read_le(data: &Vec<u8>, off: usize, n: usize) -> (r: u64)
    requires
        n <= 8,
        off + n <= data@.len(),
    ensures
        r as int == le_val(data@, off as int, n as nat),
{
    let dlen: usize = data.len();
    let mut acc: u64 = 0;
    let mut i: usize = n;
    while i > 0
        invariant
            i <= n <= 8,
            off + n <= dlen,
            dlen == data@.len(),
            acc as int == le_val(data@, off + i, (n - i) as nat),
        decreases i,
    {
        i = i - 1;
        proof {
            lemma_le_val_bound(data@, off + i + 1, (n - i - 1) as nat);
            lemma_pow256_le((n - i - 1) as nat, 7);
            assert(pow256(7) == 0x100_0000_0000_0000) by {
                assert(pow256(0) == 1);
                assert(pow256(1) == 256);
                assert(pow256(2) == 0x1_0000);
                assert(pow256(3) == 0x100_0000);
                assert(pow256(4) == 0x1_0000_0000);
                assert(pow256(5) == 0x100_0000_0000);
                assert(pow256(6) == 0x1_0000_0000_0000);
            }
        }
        acc = acc * 256 + (data[off + i] as u64);
    }
    acc
}

/// Copies the 32 bytes at `off` into an address.
fn read_addr(data: &Vec<u8>, off: usize) -> (r: Addr)
    requires
        off + 32 <= data@.len(),
    ensures
        r@ == data@.subrange(off as int, off as int + 32),
{
    let dlen: usize = data.len();
    let mut out: [u8; 32] = [0u8; 32];
    let mut i: usize = 0;
    while i < 32
        invariant
            i <= 32,
            off + 32 <= dlen,
            dlen == data@.len(),
            forall|j: int| 0 <= j < i ==> out@[j] == data@[off + j],
        decreases 32 - i,
    {
        out[i] = data[off + i];
        i = i + 1;
    }
    proof {
        assert(out@ =~= data@.subrange(off as int, off as int + 32));
    }
    Addr::new(out)
}

/// Compares the first eight bytes of `data` with `expected`.
fn has_tag(data: &Vec<u8>, expected: &[u8; 8]) -> (r: bool)
    requires
        data@.len() >= 8,
    ensures
        r <==> data@.subrange(0, 8) == expected@,
{
    let mut i: usize = 0;
    while i < 8
        invariant
            i <= 8,
            data@.len() >= 8,
            forall|j: int| 0 <= j < i ==> data@[j] == expected@[j],
        decreases 8 - i,
    {
        if data[i] != expected[i] {
            proof {
                assert(data@.subrange(0, 8)[i as int] != expected@[i as int]);
            }
            return false;
        }
        i = i + 1;
    }
    proof {
        assert(data@.subrange(0, 8) =~= expected@);
    }
    true
}

/// Decodes a multisig configuration account, returning exactly what the
/// spec-level parse of the bytes yields; every malformed buffer is an
/// [`Error::AccountDecodeError`].
pub fn decode_multisig(data: &Vec<u8>) -> (r: Result<MultisigAccountState, Error>)
    ensures
        match r {
            Ok(s) => parse_multisig(data@) == Some(s@),
            Err(e) => parse_multisig(data@) is None && e == Error::AccountDecodeError,
        },
{
    if data.len() < 95 {
        return Err(Error::AccountDecodeError);
    }
    if !has_tag(data, &MULTISIG_DISCRIMINATOR) {
        return Err(Error::AccountDecodeError);
    }
    let tag = data[94];
    if tag > 1 {
        return Err(Error::AccountDecodeError);
    }
    let p: usize = if tag == 1 {
        127
    } else {
        95
    };
    if data.len() < p + 5 {
        return Err(Error::AccountDecodeError);
    }
    let n64: u64 = read_le(data, p + 1, 4);
    proof {
        lemma_le_val_bound(data@, p + 1, 4);
        assert(pow256(4) == 0x1_0000_0000) by {
            assert(pow256(0) == 1);
            assert(pow256(1) == 256);
            assert(pow256(2) == 0x1_0000);
            assert(pow256(3) == 0x100_0000);
        }
    }
    let dlen: usize = data.len();
    if (p as u64) + 5 + 33 * n64 > dlen as u64 {
        return Err(Error::AccountDecodeError);
    }
    let n: usize = n64 as usize;
    let ghost base: int = p + 5;
    proof {
        assert(p + 5 + 33 * (n as int) <= dlen);
    }
    let create_key = read_addr(data, 8);
    let config_authority = read_addr(data, 40);
    let threshold_64 = read_le(data, 72, 2);
    let time_lock_64 = read_le(data, 74, 4);
    let transaction_index = read_le(data, 78, 8);
    let stale_transaction_index = read_le(data, 86, 8);
    proof {
        lemma_le_val_bound(data@, 72, 2);
        lemma_le_val_bound(data@, 74, 4);
        assert(pow256(0) == 1);
        assert(pow256(1) == 256);
        assert(pow256(2) == 0x1_0000);
        assert(pow256(3) == 0x100_0000);
        assert(pow256(4) == 0x1_0000_0000);
    }
    let threshold = threshold_64 as u16;
    let time_lock = time_lock_64 as u32;
    let rent_collector: Option<Addr> = if tag == 1 {
        Some(read_addr(data, 95))
    } else {
        None
    };
    let bump = data[p];
    let mut members: Vec<Member> = Vec::new();
    let mut i: usize = 0;
    while i < n
        invariant
            i <= n,
            base == p + 5,
            p <= 127,
            dlen == data@.len(),
            p + 5 + 33 * (n as int) <= dlen,
            members@.len() == i,
            forall|j: int| 0 <= j < i ==> #[trigger] members@[j]@ == parse_member_at(data@, base + 33 * j),
        decreases n - i,
    {
        let off: usize = p + 5 + 33 * i;
        let key = read_addr(data, off);
        let mask = data[off + 32];
        members.push(Member { key, permissions_mask: mask });
        i = i + 1;
    }
    let state = MultisigAccountState {
        create_key,
        config_authority,
        threshold,
        time_lock,
        transaction_index,
        stale_transaction_index,
        rent_collector,
        bump,
        members,
    };
    proof {
        let b = data@;
        assert(state@.members =~= Seq::new(n as nat, |j: int| parse_member_at(b, p + 5 + 33 * j)));
        assert(parse_multisig(b) matches Some(s) && s =~~= state@);
    }
    Ok(state)
}

/// Decodes the global program-config account, returning exactly what the
/// spec-level parse of the bytes yields.
pub fn decode_program_config(data: &Vec<u8>) -> (r: Result<ProgramConfigState, Error>)
    ensures
        match r {
            Ok(s) => parse_program_config(data@) == Some(s@),
            Err(e) => parse_program_config(data@) is None && e == Error::AccountDecodeError,
        },
{
    if data.len() < 144 {
        return Err(Error::AccountDecodeError);
    }
    if !has_tag(data, &PROGRAM_CONFIG_DISCRIMINATOR) {
        return Err(Error::AccountDecodeError);
    }
    let authority = read_addr(data, 8);
    let fee = read_le(data, 40, 8);
    let treasury = read_addr(data, 48);
    let state = ProgramConfigState { authority, multisig_creation_fee: fee, treasury };
    proof {
        assert(parse_program_config(data@) matches Some(s) && s =~~= state@);
    }
    Ok(state)
}

} // verus!
