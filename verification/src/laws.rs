//! The library's cross-cutting guarantees, each proved from the public
//! contracts of the orchestrator, the address deriver and the account
//! reader.

use vstd::prelude::*;

use crate::decode::parse_multisig;
use crate::error::Error;
use crate::instructions::vault_transaction_create_data;
use crate::message::{compiled_for, enc_message, CompiledMessageView};
use crate::types::IxView;
use crate::smart_account::{
    create_plan, exec_plan, goc_expects, goc_step, ActionView, EventView, ExecuteTransaction,
    GetOrCreate, GocPhase,
};

verus! {

/// Determinism of a run's addressing: the orchestrator re-derives nothing
/// and consults no hidden state, so two runs over the same identity and
/// the same boundary-derived addresses read and submit against exactly the
/// same addresses - every transition is the same function of the same
/// state.
pub proof fn law_runs_deterministic(g1: GetOrCreate, g2: GetOrCreate, e: EventView)
    requires
        g1 == g2,
    ensures
        goc_step(g1, e) == goc_step(g2, e),
{
}

/// Idempotence of get-or-create: a run whose first read observes a multisig
/// that decodes successfully finishes at once with that state. It performs
/// no submission, and a finished run accepts no further event, so no write
/// ever happens on such a run.
pub proof fn law_get_or_create_idempotent(g: GetOrCreate, b: Seq<u8>)
    requires
        g.phase is FirstRead,
        parse_multisig(b) is Some,
    ensures
        goc_step(g, EventView::AccountData(b)).0 is Finished,
        goc_step(g, EventView::AccountData(b)).1 == ActionView::Done(parse_multisig(b)->0),
        forall|e: EventView| !goc_expects(GocPhase::Finished, e),
{
}

/// Not-found against decode-error: an absent multisig account moves the run
/// to the create branch (a read of the program config), while present bytes
/// that do not decode fail the run with a decode error and never reach the
/// create branch.
pub proof fn law_not_found_vs_decode_error(g: GetOrCreate, b: Seq<u8>)
    requires
        g.phase is FirstRead,
        parse_multisig(b) is None,
    ensures
        goc_step(g, EventView::AccountMissing).0 is ConfigRead,
        goc_step(g, EventView::AccountMissing).1 == ActionView::Read(g.program_config_pda@),
        goc_step(g, EventView::AccountData(b)).0 is Finished,
        goc_step(g, EventView::AccountData(b)).1 == ActionView::Fail(Error::AccountDecodeError),
{
}

/// Message identity: within one execution bundle, the message bytes that
/// the "create" instruction embeds are exactly the serialization of the
/// compiled message whose accounts the "execute" instruction carries - one
/// compiled value feeds both steps byte for byte.
pub proof fn law_message_identity(
    t: ExecuteTransaction,
    next: u64,
    prop: Seq<u8>,
    tx: Seq<u8>,
    m: CompiledMessageView,
)
    ensures
        exec_plan(t, next, prop, tx, m).instructions.len() == 5,
        exec_plan(t, next, prop, tx, m).instructions[0].data == vault_transaction_create_data(
            0,
            enc_message(m),
        ),
        exec_plan(t, next, prop, tx, m).instructions[3]
            == crate::instructions::vault_transaction_execute_ix(
            t.multisig_pda@,
            prop,
            tx,
            t.identity.creator@,
            m,
        ),
{
}

/// Index monotonicity: each successful execution consumes the index one
/// past the counter it read, the ledger program advances the counter to the
/// consumed index, so after `n` successful executions the counter reads its
/// starting value plus `n`, and the `n` consumed indices - and with them
/// the derivation inputs of every proposal and transaction-message address
/// - are pairwise distinct.
pub proof fn law_index_monotonicity(start: int, j: int, k: int, n: nat)
    requires
        1 <= j < k <= n,
    ensures
        start + j != start + k,
        start + n == (start + (n - 1)) + 1,
{
}

/// Index monotonicity over a whole run: if the ledger, as its program does,
/// advances the counter by one per executed proposal, then over `n`
/// successful executions call `k` reads `start + k` and consumes
/// `start + k + 1`, no two calls consume the same index, and the counter
/// finishes at `start + n` - the starting value plus the number of calls.
pub proof fn law_run_monotonicity(start: int, n: nat, reads: Seq<int>)
    requires
        reads.len() == n,
        forall|k: int| 0 <= k < n ==> #[trigger] reads[k] == start + k,
    ensures
        forall|k: int| 0 <= k < n ==> #[trigger] reads[k] + 1 == start + k + 1,
        forall|j: int, k: int|
            #![trigger reads[j], reads[k]]
            0 <= j < n && 0 <= k < n && j != k ==> reads[j] + 1 != reads[k] + 1,
        n > 0 ==> reads[n - 1] + 1 == start + n,
{
}

/// Compilation is a pure function of its arguments: the compilation
/// contract pins every field of the message - the counters, the whole key
/// table, and each instruction's bytes and positions - so any two
/// compilations of the same instruction set against the same vault are
/// identical, and with them the proposal-creation step's instruction pair.
pub proof fn law_compile_deterministic(
    vault: Seq<u8>,
    ixs: Seq<IxView>,
    m1: CompiledMessageView,
    m2: CompiledMessageView,
)
    requires
        compiled_for(m1, vault, ixs),
        compiled_for(m2, vault, ixs),
    ensures
        m1 == m2,
{
    assert forall|i: int| 0 <= i < ixs.len() implies m1.instructions[i]
        =~~= m2.instructions[i] by {
        assert(m1.instructions[i].account_indexes =~= m2.instructions[i].account_indexes) by {
            assert forall|j: int|
                0 <= j < ixs[i].accounts.len() implies m1.instructions[i].account_indexes[j]
                == m2.instructions[i].account_indexes[j] by {
                assert((m1.instructions[i].account_indexes[j] as int) == (m2.instructions[
                    i
                ].account_indexes[j] as int));
            }
        }
    }
    assert(m1.instructions =~~= m2.instructions);
    assert(m1 =~~= m2);
}

/// The creation plan is a single-instruction submission co-signed by the
/// create key, and the execution plan is a five-instruction bundle that the
/// create key never co-signs: creation happens exactly once per multisig.
pub proof fn law_create_key_signs_only_creation(
    g: GetOrCreate,
    treasury: Seq<u8>,
    t: ExecuteTransaction,
    next: u64,
    prop: Seq<u8>,
    tx: Seq<u8>,
    m: CompiledMessageView,
)
    ensures
        create_plan(g, treasury).create_key_cosigns,
        create_plan(g, treasury).instructions.len() == 1,
        !exec_plan(t, next, prop, tx, m).create_key_cosigns,
{
}

} // verus!
