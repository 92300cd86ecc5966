//! The smart account orchestrator: a pure state machine that gets or
//! creates the multisig and executes instruction sets through its vault.
//!
//! The orchestrator never performs I/O and never computes a hash-based
//! address itself: the program-derived addresses of the multisig, the
//! program config and the vault come in as plain inputs, and the per-index
//! proposal and transaction-message addresses are requested from the
//! driver mid-run through a [`Action::Derive`] step, since only the ledger
//! SDK's derivation can compute them. Each operation starts with a
//! constructor that returns the first [`Action`] to perform; the driver
//! performs it and hands the outcome back as an [`Event`] to
//! [`GetOrCreate::step`] or [`ExecuteTransaction::step`], which answers
//! with the next action. Every transition is stated exactly in the
//! contracts, so what the orchestrator reads, derives, waits for and
//! submits is pinned for every run, relative to the addresses the driver
//! supplied.

use vstd::prelude::*;

use crate::decode::{
    decode_multisig, decode_program_config, parse_multisig, parse_program_config,
    MultisigAccountState, MultisigStateView,
};
use crate::error::Error;
use crate::instructions::{
    multisig_create_v2_ix, proposal_approve_ix, proposal_create_ix, system_transfer_ix,
    vault_transaction_accounts_close_ix, vault_transaction_create_ix,
    vault_transaction_execute_ix, build_multisig_create_v2, build_proposal_approve,
    build_proposal_create, build_system_transfer, build_vault_transaction_accounts_close,
    build_vault_transaction_create, build_vault_transaction_execute, FULL_PERMISSIONS,
};
use crate::message::{
    compilable, compile_message, compiled_for, enc_message, message_bytes, msg_wf,
    CompiledMessageView,
};
use crate::types::{views_of_ixs, Addr, Ix, IxView, Multisig};

verus! {

/// The outcome of the last action, handed back by the driver.
#[derive(Debug)]
pub enum Event {
    /// The requested account read returned these bytes.
    AccountData(Vec<u8>),
    /// The requested account read found no account (or one owned elsewhere).
    AccountMissing,
    /// The requested network call failed in transport.
    TransportFailed,
    /// The requested submission was accepted by the ledger.
    SubmitOk,
    /// The requested bounded wait elapsed.
    Waited,
    /// The requested per-index derivation: the proposal and
    /// transaction-message addresses the deriver computed.
    Derived { proposal: Addr, transaction: Addr },
}

/// Mathematical image of an event.
pub ghost enum EventView {
    AccountData(Seq<u8>),
    AccountMissing,
    TransportFailed,
    SubmitOk,
    Waited,
    Derived { proposal: Seq<u8>, transaction: Seq<u8> },
}

impl View for Event {
    type V = EventView;

    open spec fn view(&self) -> EventView {
        match self {
            Event::AccountData(b) => EventView::AccountData(b@),
            Event::AccountMissing => EventView::AccountMissing,
            Event::TransportFailed => EventView::TransportFailed,
            Event::SubmitOk => EventView::SubmitOk,
            Event::Waited => EventView::Waited,
            Event::Derived { proposal, transaction } => EventView::Derived {
                proposal: proposal@,
                transaction: transaction@,
            },
        }
    }
}

/// Mathematical image of a transaction plan.
pub ghost struct TxPlanView {
    pub payer: Seq<u8>,
    pub instructions: Seq<IxView>,
    pub create_key_cosigns: bool,
}

/// One atomic submission: the instructions, the fee payer, and whether the
/// create key must co-sign (it does exactly once, at creation, where the
/// program verifies it as the derivation seed).
#[derive(Debug)]
pub struct TxPlan {
    pub payer: Addr,
    pub instructions: Vec<Ix>,
    pub create_key_cosigns: bool,
}

impl View for TxPlan {
    type V = TxPlanView;

    open spec fn view(&self) -> TxPlanView {
        TxPlanView {
            payer: self.payer@,
            instructions: views_of_ixs(self.instructions@),
            create_key_cosigns: self.create_key_cosigns,
        }
    }
}

/// Mathematical image of an action.
pub ghost enum ActionView {
    Read(Seq<u8>),
    Derive { multisig: Seq<u8>, transaction_index: u64 },
    Submit(TxPlanView),
    Wait,
    Done(MultisigStateView),
    Executed(u64),
    Fail(Error),
}

/// What the driver must do next.
#[derive(Debug)]
pub enum Action {
    /// Fetch the data of this account.
    Read(Addr),
    /// Derive the proposal and transaction-message addresses of this
    /// multisig at this transaction index, with the ledger SDK's
    /// derivation, and hand them back as [`Event::Derived`].
    Derive { multisig: Addr, transaction_index: u64 },
    /// Sign and submit this plan as one atomic transaction.
    Submit(TxPlan),
    /// Wait the bounded confirmation grace interval.
    Wait,
    /// The operation finished with this decoded multisig state.
    Done(MultisigAccountState),
    /// The execution bundle was accepted; this transaction index was
    /// consumed.
    Executed(u64),
    /// The operation failed; the error is final and is not retried.
    Fail(Error),
}

impl View for Action {
    type V = ActionView;

    open spec fn view(&self) -> ActionView {
        match self {
            Action::Read(a) => ActionView::Read(a@),
            Action::Derive { multisig, transaction_index } => ActionView::Derive {
                multisig: multisig@,
                transaction_index: *transaction_index,
            },
            Action::Submit(p) => ActionView::Submit(p@),
            Action::Wait => ActionView::Wait,
            Action::Done(s) => ActionView::Done(s@),
            Action::Executed(i) => ActionView::Executed(*i),
            Action::Fail(e) => ActionView::Fail(*e),
        }
    }
}

/// Where a get-or-create run stands.
#[derive(Clone, Copy, Debug)]
pub enum GocPhase {
    /// Awaiting the first read of the multisig account.
    FirstRead,
    /// The multisig is absent; awaiting the program-config read.
    ConfigRead,
    /// Awaiting the outcome of the creation submission.
    Submitting,
    /// Awaiting the bounded post-creation wait.
    Waiting,
    /// Awaiting the confirming re-read.
    SecondRead,
    /// The run ended in `Done` or `Fail`.
    Finished,
}

/// The get-or-create operation: return the multisig's on-chain state,
/// creating the account first if it does not exist yet.
#[derive(Clone, Copy, Debug)]
pub struct GetOrCreate {
    pub identity: Multisig,
    pub multisig_pda: Addr,
    pub program_config_pda: Addr,
    pub phase: GocPhase,
}

/// Which events can answer the pending action of each phase.
pub open spec fn goc_expects(phase: GocPhase, e: EventView) -> bool {
    match phase {
        GocPhase::FirstRead => e is AccountData || e is AccountMissing || e is TransportFailed,
        GocPhase::ConfigRead => e is AccountData || e is AccountMissing || e is TransportFailed,
        GocPhase::Submitting => e is SubmitOk || e is TransportFailed,
        GocPhase::Waiting => e is Waited,
        GocPhase::SecondRead => e is AccountData || e is AccountMissing || e is TransportFailed,
        GocPhase::Finished => false,
    }
}

/// The creation submission: one "initialize multisig" instruction with the
/// fixed parameters of this system - threshold 1, the identity as sole
/// member with the full permission set, no time lock, the identity as rent
/// collector - paid by the identity and co-signed by the create key.
pub open spec fn create_plan(g: GetOrCreate, treasury: Seq<u8>) -> TxPlanView {
    TxPlanView {
        payer: g.identity.creator@,
        create_key_cosigns: true,
        instructions: seq![
            multisig_create_v2_ix(
                g.program_config_pda@,
                treasury,
                g.multisig_pda@,
                g.identity.create_key@,
                g.identity.creator@,
                1u16,
                g.identity.creator@,
                FULL_PERMISSIONS,
                0u32,
                g.identity.creator@,
            ),
        ],
    }
}

/// The exact transition of a get-or-create run: the next phase and action
/// for each phase and event.
pub open spec fn goc_step(g: GetOrCreate, e: EventView) -> (GocPhase, ActionView) {
    match g.phase {
        GocPhase::FirstRead => match e {
            EventView::AccountData(b) => match parse_multisig(b) {
                Some(s) => (GocPhase::Finished, ActionView::Done(s)),
                None => (GocPhase::Finished, ActionView::Fail(Error::AccountDecodeError)),
            },
            EventView::AccountMissing => (
                GocPhase::ConfigRead,
                ActionView::Read(g.program_config_pda@),
            ),
            _ => (GocPhase::Finished, ActionView::Fail(Error::TransportError)),
        },
        GocPhase::ConfigRead => match e {
            EventView::AccountData(b) => match parse_program_config(b) {
                Some(c) => (GocPhase::Submitting, ActionView::Submit(create_plan(g, c.treasury))),
                None => (GocPhase::Finished, ActionView::Fail(Error::AccountDecodeError)),
            },
            EventView::AccountMissing => (
                GocPhase::Finished,
                ActionView::Fail(Error::AccountNotFound),
            ),
            _ => (GocPhase::Finished, ActionView::Fail(Error::TransportError)),
        },
        GocPhase::Submitting => match e {
            EventView::SubmitOk => (GocPhase::Waiting, ActionView::Wait),
            _ => (GocPhase::Finished, ActionView::Fail(Error::TransportError)),
        },
        GocPhase::Waiting => (GocPhase::SecondRead, ActionView::Read(g.multisig_pda@)),
        GocPhase::SecondRead => match e {
            EventView::AccountData(b) => match parse_multisig(b) {
                Some(s) => (GocPhase::Finished, ActionView::Done(s)),
                None => (GocPhase::Finished, ActionView::Fail(Error::AccountDecodeError)),
            },
            EventView::AccountMissing => (
                GocPhase::Finished,
                ActionView::Fail(Error::CreationUnconfirmed),
            ),
            _ => (GocPhase::Finished, ActionView::Fail(Error::TransportError)),
        },
        GocPhase::Finished => (GocPhase::Finished, ActionView::Fail(Error::TransportError)),
    }
}

/// Starts a get-or-create run and asks for the multisig's account data.
///
/// The multisig address (derived from the create key under the target
/// program's scheme) and the global program-config address come in from
/// the boundary: only the ledger SDK's hash-based derivation can compute
/// them, and this library performs no outside call. Every address the run
/// reads or submits against is pinned to these two inputs.
pub fn get_or_create(identity: &Multisig, multisig_pda: Addr, program_config_pda: Addr) -> (r: (
    GetOrCreate,
    Action,
))
    ensures
        r.0.identity == *identity,
        r.0.multisig_pda == multisig_pda,
        r.0.program_config_pda == program_config_pda,
        r.0.phase is FirstRead,
        r.1@ == ActionView::Read(multisig_pda@),
{
    let g = GetOrCreate {
        identity: *identity,
        multisig_pda,
        program_config_pda,
        phase: GocPhase::FirstRead,
    };
    let first = Action::Read(g.multisig_pda);
    (g, first)
}

impl GetOrCreate {
    /// Advances the run by one observed event, exactly as [`goc_step`]
    /// says.
    pub fn step(self, e: Event) -> (r: (GetOrCreate, Action))
        requires
            goc_expects(self.phase, e@),
        ensures
            r.0.identity == self.identity,
            r.0.multisig_pda == self.multisig_pda,
            r.0.program_config_pda == self.program_config_pda,
            r.0.phase == goc_step(self, e@).0,
            r.1@ == goc_step(self, e@).1,
    {
        match self.phase {
            GocPhase::FirstRead => match e {
                Event::AccountData(b) => match decode_multisig(&b) {
                    Ok(s) => (self.at(GocPhase::Finished), Action::Done(s)),
                    Err(err) => (self.at(GocPhase::Finished), Action::Fail(err)),
                },
                Event::AccountMissing => {
                    let next = Action::Read(self.program_config_pda);
                    (self.at(GocPhase::ConfigRead), next)
                },
                _ => (self.at(GocPhase::Finished), Action::Fail(Error::TransportError)),
            },
            GocPhase::ConfigRead => match e {
                Event::AccountData(b) => match decode_program_config(&b) {
                    Ok(c) => {
                        let ix = build_multisig_create_v2(
                            &self.program_config_pda,
                            &c.treasury,
                            &self.multisig_pda,
                            &self.identity.create_key,
                            &self.identity.creator,
                            1,
                            &self.identity.creator,
                            FULL_PERMISSIONS,
                            0,
                            &self.identity.creator,
                        );
                        let mut instructions: Vec<Ix> = Vec::new();
                        instructions.push(ix);
                        let plan = TxPlan {
                            payer: self.identity.creator,
                            instructions,
                            create_key_cosigns: true,
                        };
                        proof {
                            assert(plan@.instructions =~= create_plan(self, c@.treasury)
                                .instructions);
                        }
                        (self.at(GocPhase::Submitting), Action::Submit(plan))
                    },
                    Err(err) => (self.at(GocPhase::Finished), Action::Fail(err)),
                },
                Event::AccountMissing => (
                    self.at(GocPhase::Finished),
                    Action::Fail(Error::AccountNotFound),
                ),
                _ => (self.at(GocPhase::Finished), Action::Fail(Error::TransportError)),
            },
            GocPhase::Submitting => match e {
                Event::SubmitOk => (self.at(GocPhase::Waiting), Action::Wait),
                _ => (self.at(GocPhase::Finished), Action::Fail(Error::TransportError)),
            },
            GocPhase::Waiting => {
                let next = Action::Read(self.multisig_pda);
                (self.at(GocPhase::SecondRead), next)
            },
            GocPhase::SecondRead => match e {
                Event::AccountData(b) => match decode_multisig(&b) {
                    Ok(s) => (self.at(GocPhase::Finished), Action::Done(s)),
                    Err(err) => (self.at(GocPhase::Finished), Action::Fail(err)),
                },
                Event::AccountMissing => (
                    self.at(GocPhase::Finished),
                    Action::Fail(Error::CreationUnconfirmed),
                ),
                _ => (self.at(GocPhase::Finished), Action::Fail(Error::TransportError)),
            },
            GocPhase::Finished => (
                self.at(GocPhase::Finished),
                Action::Fail(Error::TransportError),
            ),
        }
    }

    /// The same run at another phase.
    fn at(self, phase: GocPhase) -> (r: GetOrCreate)
        ensures
            r == (GetOrCreate { phase, ..self }),
    {
        GetOrCreate { phase, ..self }
    }
}

/// Where an execute-transaction run stands.
#[derive(Clone, Copy, Debug)]
pub enum ExecPhase {
    /// Awaiting the read of the multisig account for the current index.
    IndexRead,
    /// Awaiting the driver's derivation of the proposal and
    /// transaction-message addresses for the claimed index.
    Deriving { next_index: u64 },
    /// Awaiting the outcome of the four-step bundle's submission.
    Submitting { next_index: u64 },
    /// The run ended in `Executed` or `Fail`.
    Finished,
}

/// The execute operation: run an instruction set through the vault as one
/// atomic create / approve / execute / close bundle.
#[derive(Debug)]
pub struct ExecuteTransaction {
    pub identity: Multisig,
    pub multisig_pda: Addr,
    pub vault_pda: Addr,
    pub instructions: Vec<Ix>,
    pub phase: ExecPhase,
}

/// Which events can answer the pending action of each phase.
pub open spec fn exec_expects(phase: ExecPhase, e: EventView) -> bool {
    match phase {
        ExecPhase::IndexRead => e is AccountData || e is AccountMissing || e is TransportFailed,
        ExecPhase::Deriving { .. } => e is Derived,
        ExecPhase::Submitting { .. } => e is SubmitOk || e is TransportFailed,
        ExecPhase::Finished => false,
    }
}

/// The four-step bundle consuming `next`: create the vault transaction from
/// the compiled message, create its proposal (not a draft) at the
/// driver-derived proposal address `prop`, approve it as the sole member,
/// execute it against the same compiled message at the driver-derived
/// transaction-message address `tx`, and close its accounts with the
/// identity as rent collector. All five instructions are submitted as one
/// transaction paid by the identity.
pub open spec fn exec_plan(
    t: ExecuteTransaction,
    next: u64,
    prop: Seq<u8>,
    tx: Seq<u8>,
    m: CompiledMessageView,
) -> TxPlanView {
    let ms = t.multisig_pda@;
    let member = t.identity.creator@;
    TxPlanView {
        payer: member,
        create_key_cosigns: false,
        instructions: seq![
            vault_transaction_create_ix(ms, tx, member, 0u8, enc_message(m)),
            proposal_create_ix(ms, prop, member, next, false),
            proposal_approve_ix(ms, member, prop),
            vault_transaction_execute_ix(ms, prop, tx, member, m),
            vault_transaction_accounts_close_ix(ms, prop, tx, member),
        ],
    }
}

/// Starts an execute run for `instructions` and asks for the multisig's
/// current state.
///
/// The multisig address and its vault address (at the fixed vault index of
/// this single-vault system) come in from the boundary, derived there by
/// the ledger SDK; the run's reads, compilation target and submission are
/// pinned to them.
pub fn transaction(
    identity: &Multisig,
    multisig_pda: Addr,
    vault_pda: Addr,
    instructions: Vec<Ix>,
) -> (r: (ExecuteTransaction, Action))
    ensures
        r.0.identity == *identity,
        r.0.multisig_pda == multisig_pda,
        r.0.vault_pda == vault_pda,
        r.0.instructions == instructions,
        r.0.phase is IndexRead,
        r.1@ == ActionView::Read(multisig_pda@),
{
    let t = ExecuteTransaction {
        identity: *identity,
        multisig_pda,
        vault_pda,
        instructions,
        phase: ExecPhase::IndexRead,
    };
    let first = Action::Read(t.multisig_pda);
    (t, first)
}

impl ExecuteTransaction {
    /// Advances the run by one observed event. On the index read, the next
    /// transaction index is the read state's counter plus one, and the
    /// driver is asked to derive that index's addresses; on the derivation
    /// answer, the instruction set is compiled against the vault and
    /// submitted as the four-step bundle at the derived addresses. A
    /// saturated counter, an uncompilable set, an absent account and a
    /// transport failure each fail with their error.
    pub fn step(self, e: Event) -> (r: (ExecuteTransaction, Action))
        requires
            exec_expects(self.phase, e@),
        ensures
            r.0.identity == self.identity,
            r.0.multisig_pda == self.multisig_pda,
            r.0.vault_pda == self.vault_pda,
            r.0.instructions == self.instructions,
            self.phase is IndexRead && e@ is AccountData ==> match parse_multisig(
                e@->AccountData_0,
            ) {
                Some(s) => {
                    if s.transaction_index == u64::MAX {
                        r.0.phase is Finished && r.1@ == ActionView::Fail(Error::IndexExhausted)
                    } else {
                        r.0.phase == (ExecPhase::Deriving {
                            next_index: (s.transaction_index + 1) as u64,
                        }) && r.1@ == (ActionView::Derive {
                            multisig: self.multisig_pda@,
                            transaction_index: (s.transaction_index + 1) as u64,
                        })
                    }
                },
                None => r.0.phase is Finished && r.1@ == ActionView::Fail(
                    Error::AccountDecodeError,
                ),
            },
            self.phase is IndexRead && e@ is AccountMissing ==> r.0.phase is Finished && r.1@
                == ActionView::Fail(Error::AccountNotFound),
            self.phase is IndexRead && e@ is TransportFailed ==> r.0.phase is Finished && r.1@
                == ActionView::Fail(Error::TransportError),
            self.phase is Deriving && e@ is Derived ==> ({
                let next_index = self.phase->Deriving_next_index;
                let proposal = e@->Derived_proposal;
                let transaction = e@->Derived_transaction;
                if !compilable(self.vault_pda@, views_of_ixs(self.instructions@)) {
                    r.0.phase is Finished && r.1@ == ActionView::Fail(Error::CompileError)
                } else {
                    exists|m: CompiledMessageView|
                        {
                            &&& #[trigger] compiled_for(
                                m,
                                self.vault_pda@,
                                views_of_ixs(self.instructions@),
                            )
                            &&& r.0.phase == (ExecPhase::Submitting { next_index })
                            &&& r.1@ == ActionView::Submit(
                                exec_plan(self, next_index, proposal, transaction, m),
                            )
                        }
                }
            }),
            self.phase matches ExecPhase::Submitting { next_index } ==> if e@ is SubmitOk {
                r.0.phase is Finished && r.1@ == ActionView::Executed(next_index)
            } else {
                r.0.phase is Finished && r.1@ == ActionView::Fail(Error::TransportError)
            },
    {
        match self.phase {
            ExecPhase::IndexRead => match e {
                Event::AccountData(b) => match decode_multisig(&b) {
                    Ok(s) => {
                        if s.transaction_index == u64::MAX {
                            return (
                                self.at(ExecPhase::Finished),
                                Action::Fail(Error::IndexExhausted),
                            );
                        }
                        let next: u64 = s.transaction_index + 1;
                        let multisig = self.multisig_pda;
                        (
                            self.at(ExecPhase::Deriving { next_index: next }),
                            Action::Derive { multisig, transaction_index: next },
                        )
                    },
                    Err(err) => (self.at(ExecPhase::Finished), Action::Fail(err)),
                },
                Event::AccountMissing => (
                    self.at(ExecPhase::Finished),
                    Action::Fail(Error::AccountNotFound),
                ),
                _ => (self.at(ExecPhase::Finished), Action::Fail(Error::TransportError)),
            },
            ExecPhase::Deriving { next_index } => match e {
                Event::Derived { proposal, transaction } => {
                    let msg = match compile_message(&self.vault_pda, &self.instructions) {
                        Ok(m) => m,
                        Err(err) => {
                            return (self.at(ExecPhase::Finished), Action::Fail(err));
                        },
                    };
                    let member = self.identity.creator;
                    proof {
                        assert(msg_wf(msg@)) by {
                            assert forall|q: int|
                                0 <= q < msg@.instructions.len() implies (#[trigger] msg@
                                .instructions[q]).account_indexes.len() <= 255 && msg@
                                .instructions[q].data.len() <= 65535 by {
                                assert(msg@.instructions[q].data == views_of_ixs(
                                    self.instructions@,
                                )[q].data);
                            }
                        }
                    }
                    let msg_bytes = message_bytes(&msg);
                    let ix_create = build_vault_transaction_create(
                        &self.multisig_pda,
                        &transaction,
                        &member,
                        0,
                        &msg_bytes,
                    );
                    let ix_proposal = build_proposal_create(
                        &self.multisig_pda,
                        &proposal,
                        &member,
                        next_index,
                        false,
                    );
                    let ix_approve = build_proposal_approve(&self.multisig_pda, &member, &proposal);
                    let ix_execute = build_vault_transaction_execute(
                        &self.multisig_pda,
                        &proposal,
                        &transaction,
                        &member,
                        &msg,
                    );
                    let ix_close = build_vault_transaction_accounts_close(
                        &self.multisig_pda,
                        &proposal,
                        &transaction,
                        &member,
                    );
                    let mut instructions: Vec<Ix> = Vec::new();
                    instructions.push(ix_create);
                    instructions.push(ix_proposal);
                    instructions.push(ix_approve);
                    instructions.push(ix_execute);
                    instructions.push(ix_close);
                    let plan = TxPlan { payer: member, instructions, create_key_cosigns: false };
                    proof {
                        assert(plan@.instructions =~= exec_plan(
                            self,
                            next_index,
                            proposal@,
                            transaction@,
                            msg@,
                        ).instructions);
                    }
                    (self.at(ExecPhase::Submitting { next_index }), Action::Submit(plan))
                },
                _ => (self.at(ExecPhase::Finished), Action::Fail(Error::TransportError)),
            },
            ExecPhase::Submitting { next_index } => match e {
                Event::SubmitOk => (self.at(ExecPhase::Finished), Action::Executed(next_index)),
                _ => (self.at(ExecPhase::Finished), Action::Fail(Error::TransportError)),
            },
            ExecPhase::Finished => (
                self.at(ExecPhase::Finished),
                Action::Fail(Error::TransportError),
            ),
        }
    }

    /// The same run at another phase.
    fn at(self, phase: ExecPhase) -> (r: ExecuteTransaction)
        ensures
            r.identity == self.identity,
            r.multisig_pda == self.multisig_pda,
            r.vault_pda == self.vault_pda,
            r.instructions == self.instructions,
            r.phase == phase,
    {
        ExecuteTransaction {
            identity: self.identity,
            multisig_pda: self.multisig_pda,
            vault_pda: self.vault_pda,
            instructions: self.instructions,
            phase,
        }
    }
}

/// Starts an execute run for a one-lamport probe transfer from the vault
/// back to the identity, against the boundary-derived multisig and vault
/// addresses.
pub fn dummy(multisig: &Multisig, multisig_pda: Addr, vault_pda: Addr) -> (r: (
    ExecuteTransaction,
    Action,
))
    ensures
        r.0.identity == *multisig,
        r.0.multisig_pda == multisig_pda,
        r.0.vault_pda == vault_pda,
        r.0.instructions@.len() == 1,
        r.0.instructions@[0]@ == system_transfer_ix(vault_pda@, multisig.creator@, 1),
        r.0.phase is IndexRead,
        r.1@ == ActionView::Read(multisig_pda@),
{
    let ix = build_system_transfer(&vault_pda, &multisig.creator, 1);
    let mut instructions: Vec<Ix> = Vec::new();
    instructions.push(ix);
    transaction(multisig, multisig_pda, vault_pda, instructions)
}

} // verus!
