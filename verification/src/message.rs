//! Compiling an instruction set into the transaction-message format that the
//! target program stores and later executes on the vault's behalf.
//!
//! The message is self-describing: its three leading counters say which of
//! its account keys are signers and which are writable, and each embedded
//! instruction refers to accounts by their position in the key table. The
//! vault leads the table as the single writable signer, and every
//! occurrence of the vault's own address - however an instruction declares
//! it - resolves to that leading slot, so an instruction acting for the
//! vault finds it signed when the program executes the message. The vault
//! is the only signature the program can provide (it signs for the vault
//! alone, and the execute step hands every other message account over
//! unsigned), so all other occurrences are laid out by their writability.
//! Each non-vault occurrence keeps its own slot rather than being merged
//! with equal keys: the format permits repeated keys, and keeping every
//! slot makes the table a pinned function of the instruction list - the
//! costs are that the 255-slot capacity counts occurrences, and that the
//! message bytes differ from a merging compiler's for instruction sets
//! that repeat a non-vault key.

use vstd::prelude::*;

use crate::encode::{le_bytes, push_addr, push_byte, push_bytes, push_le};
use crate::error::Error;
use crate::types::{views_of_ixs, Addr, Ix, IxAccountView, IxView};

verus! {

/// Mathematical image of one compiled instruction.
#[verifier::ext_equal]
pub ghost struct CompiledIxView {
    pub program_id_index: u8,
    pub account_indexes: Seq<u8>,
    pub data: Seq<u8>,
}

/// One instruction of the message, with its accounts as key-table positions.
#[derive(Clone, Debug)]
pub struct CompiledIx {
    pub program_id_index: u8,
    pub account_indexes: Vec<u8>,
    pub data: Vec<u8>,
}

impl View for CompiledIx {
    type V = CompiledIxView;

    open spec fn view(&self) -> CompiledIxView {
        CompiledIxView {
            program_id_index: self.program_id_index,
            account_indexes: self.account_indexes@,
            data: self.data@,
        }
    }
}

/// Mathematical image of a compiled message.
#[verifier::ext_equal]
pub ghost struct CompiledMessageView {
    pub num_signers: u8,
    pub num_writable_signers: u8,
    pub num_writable_non_signers: u8,
    pub account_keys: Seq<Seq<u8>>,
    pub instructions: Seq<CompiledIxView>,
}

/// A compiled transaction message: the key table, the signer and writability
/// counters describing it, and the instructions over it.
#[derive(Clone, Debug)]
pub struct CompiledMessage {
    pub num_signers: u8,
    pub num_writable_signers: u8,
    pub num_writable_non_signers: u8,
    pub account_keys: Vec<Addr>,
    pub instructions: Vec<CompiledIx>,
}

impl View for CompiledMessage {
    type V = CompiledMessageView;

    open spec fn view(&self) -> CompiledMessageView {
        CompiledMessageView {
            num_signers: self.num_signers,
            num_writable_signers: self.num_writable_signers,
            num_writable_non_signers: self.num_writable_non_signers,
            account_keys: Seq::new(self.account_keys@.len(), |i: int| self.account_keys@[i]@),
            instructions: Seq::new(self.instructions@.len(), |i: int| self.instructions@[i]@),
        }
    }
}

/// How many of one account list's slots are writable and not the vault.
pub open spec fn wv_count(accs: Seq<IxAccountView>, vault: Seq<u8>) -> int
    decreases accs.len(),
{
    if accs.len() == 0 {
        0
    } else {
        wv_count(accs.drop_last(), vault) + (if accs.last().is_writable && accs.last().addr
            != vault {
            1int
        } else {
            0int
        })
    }
}

/// How many are read-only and not the vault.
pub open spec fn rv_count(accs: Seq<IxAccountView>, vault: Seq<u8>) -> int
    decreases accs.len(),
{
    if accs.len() == 0 {
        0
    } else {
        rv_count(accs.drop_last(), vault) + (if !accs.last().is_writable && accs.last().addr
            != vault {
            1int
        } else {
            0int
        })
    }
}

/// One key slot for the instruction's program id, unless it is the vault.
pub open spec fn prog_count(ix: IxView, vault: Seq<u8>) -> int {
    if ix.program_id == vault {
        0
    } else {
        1
    }
}

/// The writable non-vault slots the whole set occupies.
pub open spec fn w_total(ixs: Seq<IxView>, vault: Seq<u8>) -> int
    decreases ixs.len(),
{
    if ixs.len() == 0 {
        0
    } else {
        w_total(ixs.drop_last(), vault) + wv_count(ixs.last().accounts, vault)
    }
}

/// The read-only non-vault slots: each instruction's read-only accounts and
/// its program id.
pub open spec fn r_total(ixs: Seq<IxView>, vault: Seq<u8>) -> int
    decreases ixs.len(),
{
    if ixs.len() == 0 {
        0
    } else {
        r_total(ixs.drop_last(), vault) + rv_count(ixs.last().accounts, vault) + prog_count(
            ixs.last(),
            vault,
        )
    }
}

/// The writable non-vault addresses of one account list, in occurrence
/// order.
pub open spec fn w_addrs_in(accs: Seq<IxAccountView>, vault: Seq<u8>) -> Seq<Seq<u8>>
    decreases accs.len(),
{
    if accs.len() == 0 {
        Seq::empty()
    } else {
        w_addrs_in(accs.drop_last(), vault) + (if accs.last().is_writable && accs.last().addr
            != vault {
            seq![accs.last().addr]
        } else {
            Seq::<Seq<u8>>::empty()
        })
    }
}

/// The writable non-vault addresses of the whole set, in occurrence order.
pub open spec fn w_addrs(ixs: Seq<IxView>, vault: Seq<u8>) -> Seq<Seq<u8>>
    decreases ixs.len(),
{
    if ixs.len() == 0 {
        Seq::empty()
    } else {
        w_addrs(ixs.drop_last(), vault) + w_addrs_in(ixs.last().accounts, vault)
    }
}

/// The read-only non-vault addresses of one account list.
pub open spec fn r_addrs_in(accs: Seq<IxAccountView>, vault: Seq<u8>) -> Seq<Seq<u8>>
    decreases accs.len(),
{
    if accs.len() == 0 {
        Seq::empty()
    } else {
        r_addrs_in(accs.drop_last(), vault) + (if !accs.last().is_writable && accs.last().addr
            != vault {
            seq![accs.last().addr]
        } else {
            Seq::<Seq<u8>>::empty()
        })
    }
}

/// The read-only non-vault slots of the whole set: each instruction's
/// read-only accounts followed by its program id, instruction by
/// instruction.
pub open spec fn r_addrs(ixs: Seq<IxView>, vault: Seq<u8>) -> Seq<Seq<u8>>
    decreases ixs.len(),
{
    if ixs.len() == 0 {
        Seq::empty()
    } else {
        r_addrs(ixs.drop_last(), vault) + r_addrs_in(ixs.last().accounts, vault) + (if ixs.last().program_id
            == vault {
            Seq::<Seq<u8>>::empty()
        } else {
            seq![ixs.last().program_id]
        })
    }
}

/// The mathematical images of a sequence of addresses.
pub open spec fn addr_views(s: Seq<Addr>) -> Seq<Seq<u8>> {
    Seq::new(s.len(), |q: int| s[q]@)
}

/// Whether an instruction set fits the message format's one-byte counters
/// against this vault: at most 255 instructions, at most 255 accounts and
/// 65535 argument bytes per instruction, and at most 255 key slots in all
/// (the vault's leading slot plus one slot per non-vault occurrence).
pub open spec fn compilable(vault: Seq<u8>, ixs: Seq<IxView>) -> bool {
    &&& ixs.len() <= 255
    &&& (forall|i: int|
        0 <= i < ixs.len() ==> (#[trigger] ixs[i].accounts.len()) <= 255 && ixs[i].data.len()
            <= 65535)
    &&& 1 + w_total(ixs, vault) + r_total(ixs, vault) <= 255
}

/// What a correct compilation of `ixs` against `vault` looks like: the
/// vault leads the table as the single writable signer; then come the
/// writable non-vault occurrences, then the read-only ones with each
/// instruction's program id; every occurrence of the vault's own address
/// resolves to the leading slot, and every other position is the exact
/// closed-form rank of its occurrence; each instruction keeps its argument
/// bytes.
pub open spec fn compiled_for(m: CompiledMessageView, vault: Seq<u8>, ixs: Seq<IxView>) -> bool {
    &&& m.num_signers == 1
    &&& m.num_writable_signers == 1
    &&& m.num_writable_non_signers == w_total(ixs, vault)
    &&& m.account_keys == seq![vault] + w_addrs(ixs, vault) + r_addrs(ixs, vault)
    &&& m.account_keys.len() == 1 + w_total(ixs, vault) + r_total(ixs, vault)
    &&& m.account_keys[0] == vault
    &&& m.instructions.len() == ixs.len()
    &&& (forall|i: int| 0 <= i < ixs.len() ==> (#[trigger] m.instructions[i]).data == ixs[i].data)
    &&& (forall|i: int|
        0 <= i < ixs.len() ==> (#[trigger] m.instructions[i]).account_indexes.len()
            == ixs[i].accounts.len())
    &&& (forall|i: int|
        0 <= i < ixs.len() ==> ((#[trigger] m.instructions[i]).program_id_index as int) == (
        if ixs[i].program_id == vault {
            0int
        } else {
            1 + w_total(ixs, vault) + r_total(ixs.take(i), vault) + rv_count(
                ixs[i].accounts,
                vault,
            )
        }))
    &&& (forall|i: int, j: int|
        0 <= i < ixs.len() && 0 <= j < ixs[i].accounts.len()
            ==> ((#[trigger] m.instructions[i].account_indexes[j]) as int) == (
        if ixs[i].accounts[j].addr == vault {
            0int
        } else if ixs[i].accounts[j].is_writable {
            1 + w_total(ixs.take(i), vault) + wv_count(ixs[i].accounts.take(j), vault)
        } else {
            1 + w_total(ixs, vault) + r_total(ixs.take(i), vault) + rv_count(
                ixs[i].accounts.take(j),
                vault,
            )
        }))
}

/// Appending an address appends its view.
proof fn lemma_addr_views_push(s: Seq<Addr>, a: Addr)
    ensures
        addr_views(s.push(a)) =~= addr_views(s) + seq![a@],
{
    assert forall|q: int| 0 <= q < s.len() + 1 implies addr_views(s.push(a))[q] == (addr_views(s)
        + seq![a@])[q] by {
        if q < s.len() {
            assert(s.push(a)[q] == s[q]);
        } else {
            assert(s.push(a)[q] == a);
        }
    }
}

/// The occurrence lists are as long as their counts, and the counts are
/// non-negative.
proof fn lemma_in_lens(accs: Seq<IxAccountView>, vault: Seq<u8>)
    ensures
        w_addrs_in(accs, vault).len() == wv_count(accs, vault),
        r_addrs_in(accs, vault).len() == rv_count(accs, vault),
        0 <= wv_count(accs, vault),
        0 <= rv_count(accs, vault),
        wv_count(accs, vault) + rv_count(accs, vault) <= accs.len(),
    decreases accs.len(),
{
    if accs.len() > 0 {
        lemma_in_lens(accs.drop_last(), vault);
    }
}

proof fn lemma_totals(ixs: Seq<IxView>, vault: Seq<u8>)
    ensures
        w_addrs(ixs, vault).len() == w_total(ixs, vault),
        r_addrs(ixs, vault).len() == r_total(ixs, vault),
        0 <= w_total(ixs, vault),
        0 <= r_total(ixs, vault),
    decreases ixs.len(),
{
    if ixs.len() > 0 {
        lemma_totals(ixs.drop_last(), vault);
        lemma_in_lens(ixs.last().accounts, vault);
    }
}

/// A prefix of the account list never holds more slots than the whole
/// list.
proof fn lemma_in_take(accs: Seq<IxAccountView>, vault: Seq<u8>, j: int)
    requires
        0 <= j <= accs.len(),
    ensures
        wv_count(accs.take(j), vault) <= wv_count(accs, vault),
        rv_count(accs.take(j), vault) <= rv_count(accs, vault),
        0 <= wv_count(accs.take(j), vault),
        0 <= rv_count(accs.take(j), vault),
    decreases accs.len() - j,
{
    lemma_in_lens(accs.take(j), vault);
    if j < accs.len() {
        lemma_in_take(accs, vault, j + 1);
        assert(accs.take(j + 1).drop_last() =~= accs.take(j));
        assert(accs.take(j + 1).last() == accs[j]);
    } else {
        assert(accs.take(j) =~= accs);
    }
}

/// A prefix of the instruction list never holds more slots than the whole
/// list.
proof fn lemma_take_totals(ixs: Seq<IxView>, vault: Seq<u8>, i: int)
    requires
        0 <= i <= ixs.len(),
    ensures
        0 <= w_total(ixs.take(i), vault) <= w_total(ixs, vault),
        0 <= r_total(ixs.take(i), vault) <= r_total(ixs, vault),
    decreases ixs.len() - i,
{
    lemma_totals(ixs.take(i), vault);
    if i < ixs.len() {
        lemma_take_totals(ixs, vault, i + 1);
        assert(ixs.take(i + 1).drop_last() =~= ixs.take(i));
        assert(ixs.take(i + 1).last() == ixs[i]);
        lemma_in_lens(ixs[i].accounts, vault);
    } else {
        assert(ixs.take(i) =~= ixs);
    }
}

/// Compiles `ixs` into a message executed by `vault`. Succeeds exactly when
/// the set fits the format's counters; the result is the compilation that
/// [`compiled_for`] pins.
pub fn compile_message(vault: &Addr, ixs: &Vec<Ix>) -> (r: Result<CompiledMessage, Error>)
    ensures
        match r {
            Ok(m) => compilable(vault@, views_of_ixs(ixs@)) && compiled_for(
                m@,
                vault@,
                views_of_ixs(ixs@),
            ),
            Err(e) => !compilable(vault@, views_of_ixs(ixs@)) && e == Error::CompileError,
        },
{
    let ghost ixsv = views_of_ixs(ixs@);
    let ghost vt = vault@;
    let n = ixs.len();
    if n > 255 {
        return Err(Error::CompileError);
    }
    // Per-instruction limits.
    let mut i: usize = 0;
    while i < n
        invariant
            i <= n <= 255,
            n == ixs@.len(),
            ixsv == views_of_ixs(ixs@),
            forall|i2: int|
                0 <= i2 < i ==> (#[trigger] ixsv[i2].accounts.len()) <= 255 && ixsv[i2].data.len()
                    <= 65535,
        decreases n - i,
    {
        if ixs[i].accounts.len() > 255 || ixs[i].data.len() > 65535 {
            proof {
                assert(ixsv[i as int].accounts.len() > 255 || ixsv[i as int].data.len() > 65535);
                assert(!compilable(vt, ixsv));
            }
            return Err(Error::CompileError);
        }
        i = i + 1;
    }
    // Count the writable and read-only non-vault slots.
    let mut wcount: u32 = 0;
    let mut rcount: u32 = 0;
    let mut i: usize = 0;
    while i < n
        invariant
            i <= n <= 255,
            n == ixs@.len(),
            ixsv == views_of_ixs(ixs@),
            vt == vault@,
            wcount == w_total(ixsv.take(i as int), vt),
            rcount == r_total(ixsv.take(i as int), vt),
            wcount as int + rcount as int <= 256 * i,
            forall|i2: int|
                0 <= i2 < n ==> (#[trigger] ixsv[i2].accounts.len()) <= 255 && ixsv[i2].data.len()
                    <= 65535,
        decreases n - i,
    {
        let accs = &ixs[i].accounts;
        let m = accs.len();
        let ghost accsv = ixsv[i as int].accounts;
        proof {
            assert(ixsv[i as int].accounts.len() == accs@.len());
            assert(ixsv[i as int].accounts.len() <= 255);
        }
        let mut j: usize = 0;
        while j < m
            invariant
                j <= m == accs@.len(),
                i < n == ixs@.len(),
                n <= 255,
                ixsv == views_of_ixs(ixs@),
                vt == vault@,
                accs@ == ixs@[i as int].accounts@,
                accsv == ixsv[i as int].accounts,
                accsv.len() == m,
                m <= 255,
                wcount == w_total(ixsv.take(i as int), vt) + wv_count(accsv.take(j as int), vt),
                rcount == r_total(ixsv.take(i as int), vt) + rv_count(accsv.take(j as int), vt),
                wcount as int + rcount as int <= 256 * i + j,
            decreases m - j,
        {
            proof {
                assert(accsv[j as int] == accs@[j as int]@);
                assert(accsv.take(j + 1).drop_last() =~= accsv.take(j as int));
                assert(accsv.take(j + 1).last() == accsv[j as int]);
            }
            let acc = &accs[j];
            if !acc.addr.same_as(vault) {
                if acc.is_writable {
                    wcount = wcount + 1;
                } else {
                    rcount = rcount + 1;
                }
            }
            j = j + 1;
        }
        proof {
            assert(accsv.take(m as int) =~= accsv);
            assert(ixsv.take(i + 1).drop_last() =~= ixsv.take(i as int));
            assert(ixsv.take(i + 1).last() == ixsv[i as int]);
        }
        if !ixs[i].program_id.same_as(vault) {
            rcount = rcount + 1;
        }
        i = i + 1;
    }
    proof {
        assert(ixsv.take(n as int) =~= ixsv);
    }
    if 1 + wcount as u64 + rcount as u64 > 255 {
        proof {
            lemma_totals(ixsv, vt);
        }
        return Err(Error::CompileError);
    }
    let w_exec: u32 = wcount;
    let ghost wtot = w_total(ixsv, vt);
    let ghost rtot = r_total(ixsv, vt);
    // Build the key table and the compiled instructions in one pass: a
    // vault occurrence resolves to the leading slot, a writable non-vault
    // occurrence takes the next slot after the vault, a read-only one the
    // next slot after all writable ones.
    let mut wkeys: Vec<Addr> = Vec::new();
    let mut rkeys: Vec<Addr> = Vec::new();
    let mut cixs: Vec<CompiledIx> = Vec::new();
    proof {
        assert(addr_views(wkeys@) =~= w_addrs(ixsv.take(0), vt));
        assert(addr_views(rkeys@) =~= r_addrs(ixsv.take(0), vt));
    }
    let mut i: usize = 0;
    while i < n
        invariant
            i <= n <= 255,
            n == ixs@.len(),
            ixsv == views_of_ixs(ixs@),
            vt == vault@,
            wtot == w_total(ixsv, vt),
            rtot == r_total(ixsv, vt),
            w_exec == wtot,
            1 + wtot + rtot <= 255,
            forall|i2: int|
                0 <= i2 < n ==> (#[trigger] ixsv[i2].accounts.len()) <= 255 && ixsv[i2].data.len()
                    <= 65535,
            wkeys@.len() == w_total(ixsv.take(i as int), vt),
            rkeys@.len() == r_total(ixsv.take(i as int), vt),
            addr_views(wkeys@) == w_addrs(ixsv.take(i as int), vt),
            addr_views(rkeys@) == r_addrs(ixsv.take(i as int), vt),
            cixs@.len() == i,
            forall|i2: int| 0 <= i2 < i ==> (#[trigger] cixs@[i2]@).data == ixsv[i2].data,
            forall|i2: int|
                0 <= i2 < i ==> (#[trigger] cixs@[i2]@).account_indexes.len()
                    == ixsv[i2].accounts.len(),
            forall|i2: int|
                0 <= i2 < i ==> ((#[trigger] cixs@[i2]@).program_id_index as int) == (
                if ixsv[i2].program_id == vt {
                    0int
                } else {
                    1 + wtot + r_total(ixsv.take(i2), vt) + rv_count(ixsv[i2].accounts, vt)
                }),
            forall|i2: int, j2: int|
                0 <= i2 < i && 0 <= j2 < ixsv[i2].accounts.len()
                    ==> ((#[trigger] cixs@[i2]@.account_indexes[j2]) as int) == (
                if ixsv[i2].accounts[j2].addr == vt {
                    0int
                } else if ixsv[i2].accounts[j2].is_writable {
                    1 + w_total(ixsv.take(i2), vt) + wv_count(ixsv[i2].accounts.take(j2), vt)
                } else {
                    1 + wtot + r_total(ixsv.take(i2), vt) + rv_count(
                        ixsv[i2].accounts.take(j2),
                        vt,
                    )
                }),
        decreases n - i,
    {
        let accs = &ixs[i].accounts;
        let m = accs.len();
        let ghost accsv = ixsv[i as int].accounts;
        let mut account_indexes: Vec<u8> = Vec::new();
        proof {
            assert(addr_views(wkeys@) =~= w_addrs(ixsv.take(i as int), vt) + w_addrs_in(
                accsv.take(0),
                vt,
            ));
            assert(addr_views(rkeys@) =~= r_addrs(ixsv.take(i as int), vt) + r_addrs_in(
                accsv.take(0),
                vt,
            ));
        }
        let mut j: usize = 0;
        while j < m
            invariant
                j <= m == accs@.len(),
                accs@ == ixs@[i as int].accounts@,
                i < n == ixs@.len(),
                ixsv == views_of_ixs(ixs@),
                vt == vault@,
                accsv == ixsv[i as int].accounts,
                accsv.len() == m,
                wtot == w_total(ixsv, vt),
                rtot == r_total(ixsv, vt),
                w_exec == wtot,
                1 + wtot + rtot <= 255,
                wkeys@.len() == w_total(ixsv.take(i as int), vt) + wv_count(
                    accsv.take(j as int),
                    vt,
                ),
                rkeys@.len() == r_total(ixsv.take(i as int), vt) + rv_count(
                    accsv.take(j as int),
                    vt,
                ),
                addr_views(wkeys@) == w_addrs(ixsv.take(i as int), vt) + w_addrs_in(
                    accsv.take(j as int),
                    vt,
                ),
                addr_views(rkeys@) == r_addrs(ixsv.take(i as int), vt) + r_addrs_in(
                    accsv.take(j as int),
                    vt,
                ),
                account_indexes@.len() == j,
                forall|j2: int|
                    0 <= j2 < j ==> ((#[trigger] account_indexes@[j2]) as int) == (
                    if accsv[j2].addr == vt {
                        0int
                    } else if accsv[j2].is_writable {
                        1 + w_total(ixsv.take(i as int), vt) + wv_count(accsv.take(j2), vt)
                    } else {
                        1 + wtot + r_total(ixsv.take(i as int), vt) + rv_count(
                            accsv.take(j2),
                            vt,
                        )
                    }),
            decreases m - j,
        {
            proof {
                lemma_take_totals(ixsv, vt, i as int);
                lemma_take_totals(ixsv, vt, i + 1);
                assert(ixsv.take(i + 1).drop_last() =~= ixsv.take(i as int));
                assert(ixsv.take(i + 1).last() == ixsv[i as int]);
                lemma_in_take(accsv, vt, j as int);
                lemma_in_lens(accsv, vt);
                assert(accsv.take(j + 1).drop_last() =~= accsv.take(j as int));
                assert(accsv.take(j + 1).last() == accsv[j as int]);
                assert(accsv[j as int] == accs@[j as int]@);
            }
            let acc = &accs[j];
            if acc.addr.same_as(vault) {
                account_indexes.push(0);
                proof {
                    assert(addr_views(wkeys@) =~= w_addrs(ixsv.take(i as int), vt) + w_addrs_in(
                        accsv.take(j + 1),
                        vt,
                    ));
                    assert(addr_views(rkeys@) =~= r_addrs(ixsv.take(i as int), vt) + r_addrs_in(
                        accsv.take(j + 1),
                        vt,
                    ));
                }
            } else if acc.is_writable {
                let k: u32 = 1 + wkeys.len() as u32;
                let ghost pre_w = wkeys@;
                proof {
                    assert(k <= 255);
                    assert(w_addrs_in(accsv.take(j + 1), vt) =~= w_addrs_in(
                        accsv.take(j as int),
                        vt,
                    ) + seq![accsv[j as int].addr]);
                    assert(r_addrs_in(accsv.take(j + 1), vt) =~= r_addrs_in(
                        accsv.take(j as int),
                        vt,
                    ));
                    lemma_addr_views_push(pre_w, acc.addr);
                }
                wkeys.push(acc.addr);
                account_indexes.push(k as u8);
                proof {
                    assert(addr_views(wkeys@) =~= w_addrs(ixsv.take(i as int), vt) + w_addrs_in(
                        accsv.take(j + 1),
                        vt,
                    ));
                    assert(addr_views(rkeys@) =~= r_addrs(ixsv.take(i as int), vt) + r_addrs_in(
                        accsv.take(j + 1),
                        vt,
                    ));
                }
            } else {
                let k: u32 = 1 + w_exec + rkeys.len() as u32;
                let ghost pre_r = rkeys@;
                proof {
                    assert(k <= 255);
                    assert(r_addrs_in(accsv.take(j + 1), vt) =~= r_addrs_in(
                        accsv.take(j as int),
                        vt,
                    ) + seq![accsv[j as int].addr]);
                    assert(w_addrs_in(accsv.take(j + 1), vt) =~= w_addrs_in(
                        accsv.take(j as int),
                        vt,
                    ));
                    lemma_addr_views_push(pre_r, acc.addr);
                }
                rkeys.push(acc.addr);
                account_indexes.push(k as u8);
                proof {
                    assert(addr_views(wkeys@) =~= w_addrs(ixsv.take(i as int), vt) + w_addrs_in(
                        accsv.take(j + 1),
                        vt,
                    ));
                    assert(addr_views(rkeys@) =~= r_addrs(ixsv.take(i as int), vt) + r_addrs_in(
                        accsv.take(j + 1),
                        vt,
                    ));
                }
            }
            j = j + 1;
        }
        proof {
            assert(accsv.take(m as int) =~= accsv);
            lemma_take_totals(ixsv, vt, i as int);
            lemma_take_totals(ixsv, vt, i + 1);
            assert(ixsv.take(i + 1).drop_last() =~= ixsv.take(i as int));
            assert(ixsv.take(i + 1).last() == ixsv[i as int]);
            lemma_in_lens(accsv, vt);
        }
        let pk: u32 = if ixs[i].program_id.same_as(vault) {
            0
        } else {
            let pv: u32 = 1 + w_exec + rkeys.len() as u32;
            let ghost pre_r = rkeys@;
            proof {
                assert(pv <= 255);
                lemma_addr_views_push(pre_r, ixs@[i as int].program_id);
            }
            rkeys.push(ixs[i].program_id);
            pv
        };
        proof {
            assert(addr_views(wkeys@) =~= w_addrs(ixsv.take(i + 1), vt));
            assert(addr_views(rkeys@) =~= r_addrs(ixsv.take(i + 1), vt));
        }
        let data_copy = clone_bytes(&ixs[i].data);
        let cix = CompiledIx { program_id_index: pk as u8, account_indexes, data: data_copy };
        cixs.push(cix);
        i = i + 1;
    }
    proof {
        assert(ixsv.take(n as int) =~= ixsv);
    }
    let mut account_keys: Vec<Addr> = Vec::new();
    account_keys.push(*vault);
    let mut i: usize = 0;
    while i < wkeys.len()
        invariant
            i <= wkeys@.len(),
            account_keys@ == seq![*vault] + wkeys@.take(i as int),
        decreases wkeys@.len() - i,
    {
        account_keys.push(wkeys[i]);
        proof {
            assert(account_keys@ =~= seq![*vault] + wkeys@.take(i + 1));
        }
        i = i + 1;
    }
    proof {
        assert(wkeys@.take(wkeys@.len() as int) =~= wkeys@);
    }
    let mut i: usize = 0;
    while i < rkeys.len()
        invariant
            i <= rkeys@.len(),
            account_keys@ == seq![*vault] + wkeys@ + rkeys@.take(i as int),
        decreases rkeys@.len() - i,
    {
        account_keys.push(rkeys[i]);
        proof {
            assert(account_keys@ =~= seq![*vault] + wkeys@ + rkeys@.take(i + 1));
        }
        i = i + 1;
    }
    proof {
        assert(rkeys@.take(rkeys@.len() as int) =~= rkeys@);
    }
    let msg = CompiledMessage {
        num_signers: 1,
        num_writable_signers: 1,
        num_writable_non_signers: w_exec as u8,
        account_keys,
        instructions: cixs,
    };
    proof {
        lemma_totals(ixsv, vt);
        assert(msg@.account_keys =~= seq![vt] + w_addrs(ixsv, vt) + r_addrs(ixsv, vt));
        assert(compiled_for(msg@, vault@, ixsv));
    }
    Ok(msg)
}

/// Copies a byte vector.
fn clone_bytes(v: &Vec<u8>) -> (r: Vec<u8>)
    ensures
        r@ == v@,
{
    let mut out: Vec<u8> = Vec::new();
    let mut i: usize = 0;
    while i < v.len()
        invariant
            i <= v@.len(),
            out@ == v@.take(i as int),
        decreases v@.len() - i,
    {
        out.push(v[i]);
        proof {
            assert(out@ =~= v@.take(i + 1));
        }
        i = i + 1;
    }
    proof {
        assert(v@.take(v@.len() as int) =~= v@);
    }
    out
}

/// The wire form of one compiled instruction: the program position, the
/// one-byte-counted account positions, and the two-byte-counted argument
/// bytes.
pub open spec fn enc_compiled_ix(ci: CompiledIxView) -> Seq<u8> {
    seq![ci.program_id_index] + seq![ci.account_indexes.len() as u8] + ci.account_indexes + le_bytes(
        ci.data.len() as int,
        2,
    ) + ci.data
}

pub open spec fn enc_keys(keys: Seq<Seq<u8>>) -> Seq<u8>
    decreases keys.len(),
{
    if keys.len() == 0 {
        Seq::empty()
    } else {
        enc_keys(keys.drop_last()) + keys.last()
    }
}

pub open spec fn enc_cixs(cixs: Seq<CompiledIxView>) -> Seq<u8>
    decreases cixs.len(),
{
    if cixs.len() == 0 {
        Seq::empty()
    } else {
        enc_cixs(cixs.drop_last()) + enc_compiled_ix(cixs.last())
    }
}

/// The wire form of a whole message: the three counters, the one-byte-counted
/// key table, the one-byte-counted instruction list, and an empty
/// address-table-lookup list.
pub open spec fn enc_message(m: CompiledMessageView) -> Seq<u8> {
    seq![m.num_signers, m.num_writable_signers, m.num_writable_non_signers]
        + seq![m.account_keys.len() as u8] + enc_keys(m.account_keys)
        + seq![m.instructions.len() as u8] + enc_cixs(m.instructions) + seq![0u8]
}

/// Whether the message's lists fit its one-byte counters.
pub open spec fn msg_wf(m: CompiledMessageView) -> bool {
    &&& m.account_keys.len() <= 255
    &&& m.instructions.len() <= 255
    &&& forall|i: int|
        0 <= i < m.instructions.len() ==> (#[trigger] m.instructions[i]).account_indexes.len()
            <= 255 && m.instructions[i].data.len() <= 65535
}

/// Serializes a compiled message into its exact wire bytes.
pub fn message_bytes(m: &CompiledMessage) -> (r: Vec<u8>)
    requires
        msg_wf(m@),
    ensures
        r@ == enc_message(m@),
{
    let mut buf: Vec<u8> = Vec::new();
    push_byte(&mut buf, m.num_signers);
    push_byte(&mut buf, m.num_writable_signers);
    push_byte(&mut buf, m.num_writable_non_signers);
    push_byte(&mut buf, m.account_keys.len() as u8);
    let ghost keysv = m@.account_keys;
    let ghost pre = buf@;
    let mut i: usize = 0;
    while i < m.account_keys.len()
        invariant
            i <= m.account_keys@.len(),
            keysv == m@.account_keys,
            keysv.len() == m.account_keys@.len(),
            forall|q: int| 0 <= q < keysv.len() ==> keysv[q] == m.account_keys@[q]@,
            buf@ == pre + enc_keys(keysv.take(i as int)),
        decreases m.account_keys@.len() - i,
    {
        proof {
            assert(keysv.take(i + 1).drop_last() =~= keysv.take(i as int));
            assert(keysv.take(i + 1).last() == keysv[i as int]);
        }
        push_addr(&mut buf, &m.account_keys[i]);
        i = i + 1;
    }
    proof {
        assert(keysv.take(keysv.len() as int) =~= keysv);
    }
    push_byte(&mut buf, m.instructions.len() as u8);
    let ghost cixsv = m@.instructions;
    let ghost pre2 = buf@;
    let mut i: usize = 0;
    while i < m.instructions.len()
        invariant
            i <= m.instructions@.len(),
            cixsv == m@.instructions,
            cixsv.len() == m.instructions@.len(),
            forall|q: int| 0 <= q < cixsv.len() ==> cixsv[q] == m.instructions@[q]@,
            forall|q: int|
                0 <= q < cixsv.len() ==> (#[trigger] cixsv[q]).account_indexes.len() <= 255
                    && cixsv[q].data.len() <= 65535,
            buf@ == pre2 + enc_cixs(cixsv.take(i as int)),
        decreases m.instructions@.len() - i,
    {
        proof {
            assert(cixsv.take(i + 1).drop_last() =~= cixsv.take(i as int));
            assert(cixsv.take(i + 1).last() == cixsv[i as int]);
        }
        let ci = &m.instructions[i];
        push_byte(&mut buf, ci.program_id_index);
        push_byte(&mut buf, ci.account_indexes.len() as u8);
        push_bytes(&mut buf, &ci.account_indexes);
        push_le(&mut buf, ci.data.len() as u64, 2);
        push_bytes(&mut buf, &ci.data);
        proof {
            assert(buf@ =~= pre2 + enc_cixs(cixsv.take(i + 1)));
        }
        i = i + 1;
    }
    proof {
        assert(cixsv.take(cixsv.len() as int) =~= cixsv);
    }
    push_byte(&mut buf, 0);
    proof {
        assert(buf@ =~= enc_message(m@));
    }
    buf
}

} // verus!
