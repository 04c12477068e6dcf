use vstd::prelude::*;
use solana_program::program_error::ProgramError;
use crate::error::SwapError;
use crate::ledger::{le_bytes, readable_record, record_error, token_balance};
use crate::fee::{fee_of, taxed_of, MAX_RATE_PERCENT};
use crate::transfer::{intent_of, legs_of, plan_transfer, planned_legs, Leg, LegKind, TransferIntent};

verus! {

/// Where a swap stands between ledger calls.
#[derive(Clone, Copy, Debug, PartialEq, Eq, Structural)]
pub enum Phase {
    /// No leg issued yet.
    Ready,
    /// A leg was handed out and its outcome is due.
    Awaiting,
    /// The swap ended, in success or failure; nothing more is issued.
    Finished,
}

/// What the caller must do next.
#[derive(Debug, PartialEq, Eq)]
pub enum Action {
    /// Perform this ledger transfer and report its outcome.
    Invoke(Leg),
    /// Stop: the swap's result.
    Finish(Result<(), SwapError>),
}

/// The abstract state of a swap: its intent, how many legs were handed out,
/// and its phase.
pub struct Progress {
    pub intent: TransferIntent,
    pub issued: nat,
    pub phase: Phase,
}

/// The state of a swap that has just been validated.
pub open spec fn initial(intent: TransferIntent) -> Progress {
    Progress { intent, issued: 0, phase: Phase::Ready }
}

/// Beginning a swap hands out its first leg.
pub open spec fn start_spec(p: Progress) -> (Progress, Action) {
    (
        Progress { issued: 1, phase: Phase::Awaiting, ..p },
        Action::Invoke(planned_legs(p.intent)[0]),
    )
}

/// Reacting to the outcome of the leg last handed out: a failure ends the
/// swap with that same error; a success hands out the next planned leg, or
/// ends the swap successfully when none is left.
pub open spec fn outcome_spec(p: Progress, outcome: Result<(), ProgramError>) -> (Progress, Action) {
    match outcome {
        Err(e) => (
            Progress { phase: Phase::Finished, ..p },
            Action::Finish(Err(SwapError::Ledger(e))),
        ),
        Ok(_) => if p.issued < planned_legs(p.intent).len() {
            (
                Progress { issued: p.issued + 1, ..p },
                Action::Invoke(planned_legs(p.intent)[p.issued as int]),
            )
        } else {
            (Progress { phase: Phase::Finished, ..p }, Action::Finish(Ok(())))
        },
    }
}

/// Sequences the legs of one swap, failing fast: the caller performs each
/// `Action::Invoke` and reports its outcome, until an `Action::Finish`.
pub struct Orchestrator {
    intent: TransferIntent,
    legs: Vec<Leg>,
    issued: usize,
    phase: Phase,
}

impl View for Orchestrator {
    type V = Progress;

    closed spec fn view(&self) -> Progress {
        Progress { intent: self.intent, issued: self.issued as nat, phase: self.phase }
    }
}

impl Orchestrator {
    pub closed spec fn wf(&self) -> bool {
        &&& self.legs@ == planned_legs(self.intent)
        &&& self.intent.rate <= MAX_RATE_PERCENT
        &&& self.intent == intent_of(self.intent.gross, self.intent.rate)
        &&& self.issued <= self.legs@.len()
        &&& self.phase == Phase::Ready ==> self.issued == 0
        &&& self.phase == Phase::Awaiting ==> self.issued >= 1
    }

    /// Validates the fee rate and fixes the swap's amounts from the source
    /// balance `gross`. Fails with `InvalidArgument`, before any leg, when
    /// `rate` exceeds one hundred.
    pub fn new(gross: u64, rate: u64) -> (r: Result<Orchestrator, SwapError>)
        ensures
            rate > MAX_RATE_PERCENT <==> r is Err,
            r is Err ==> r->Err_0 == SwapError::InvalidArgument,
            r is Ok ==> r->Ok_0.wf() && r->Ok_0@ == initial(intent_of(gross, rate)),
    {
        match plan_transfer(gross, rate) {
            Err(e) => Err(e),
            Ok(intent) => {
                let legs = legs_of(&intent);
                Ok(Orchestrator { intent, legs, issued: 0, phase: Phase::Ready })
            },
        }
    }

    /// Begins a swap from the source token account's record: the fee rate is
    /// checked first, then the balance to move is read from the record.
    pub fn begin(source_record: &[u8], rate: u64) -> (r: Result<Orchestrator, SwapError>)
        ensures
            r is Ok <==> rate <= MAX_RATE_PERCENT && readable_record(source_record@),
            rate > MAX_RATE_PERCENT ==> r is Err && r->Err_0 == SwapError::InvalidArgument,
            rate <= MAX_RATE_PERCENT && !readable_record(source_record@) ==> r is Err
                && r->Err_0 == SwapError::Ledger(record_error(source_record@)),
            r is Ok ==> r->Ok_0.wf() && r->Ok_0@ == initial(
                intent_of(r->Ok_0@.intent.gross, rate),
            ) && le_bytes(r->Ok_0@.intent.gross) == source_record@.subrange(64, 72),
    {
        if rate > MAX_RATE_PERCENT {
            return Err(SwapError::InvalidArgument);
        }
        let gross = match token_balance(source_record) {
            Ok(gross) => gross,
            Err(e) => return Err(e),
        };
        Orchestrator::new(gross, rate)
    }

    /// The swap's amounts.
    pub fn intent(&self) -> (r: TransferIntent)
        ensures
            r == self@.intent,
    {
        self.intent
    }

    /// Whether the swap has ended.
    pub fn is_finished(&self) -> (r: bool)
        ensures
            r == (self@.phase == Phase::Finished),
    {
        self.phase == Phase::Finished
    }

    /// Hands out the first leg.
    pub fn start(&mut self) -> (a: Action)
        requires
            old(self).wf(),
            old(self)@.phase == Phase::Ready,
        ensures
            final(self).wf(),
            (final(self)@, a) == start_spec(old(self)@),
    {
        self.issued = 1;
        self.phase = Phase::Awaiting;
        Action::Invoke(self.legs[0])
    }

    /// Takes the outcome of the leg last handed out and says what comes next.
    pub fn on_outcome(&mut self, outcome: Result<(), ProgramError>) -> (a: Action)
        requires
            old(self).wf(),
            old(self)@.phase == Phase::Awaiting,
        ensures
            final(self).wf(),
            (final(self)@, a) == outcome_spec(old(self)@, outcome),
    {
        match outcome {
            Err(e) => {
                self.phase = Phase::Finished;
                Action::Finish(Err(SwapError::Ledger(e)))
            },
            Ok(()) => {
                if self.issued < self.legs.len() {
                    let leg = self.legs[self.issued];
                    self.issued = self.issued + 1;
                    Action::Invoke(leg)
                } else {
                    self.phase = Phase::Finished;
                    Action::Finish(Ok(()))
                }
            },
        }
    }
}

/// The net and withheld amounts together make up the whole source balance,
/// and no more than the computed fee is withheld.
pub proof fn lemma_amounts_conserved(gross: u64, rate: u64)
    requires
        rate <= MAX_RATE_PERCENT,
    ensures
        intent_of(gross, rate).net + intent_of(gross, rate).taxed == gross,
        intent_of(gross, rate).taxed == fee_of(gross, rate),
        planned_legs(intent_of(gross, rate))[1] == (Leg { kind: LegKind::Unit, amount: 1 }),
{
    assert(gross as int * rate as int <= gross as int * 100) by (nonlinear_arith)
        requires
            rate <= 100,
    ;
}

/// When no fee is withheld, the fee leg is never planned, and a swap whose
/// two legs succeed ends successfully after exactly those two.
pub proof fn lemma_no_fee_leg_without_fee(gross: u64, rate: u64)
    requires
        rate <= MAX_RATE_PERCENT,
        taxed_of(gross, rate) == 0,
    ensures
        planned_legs(intent_of(gross, rate)).len() == 2,
        forall|i: int|
            0 <= i < planned_legs(intent_of(gross, rate)).len() ==> planned_legs(
                intent_of(gross, rate),
            )[i].kind != LegKind::Fee,
        ({
            let (p1, a1) = start_spec(initial(intent_of(gross, rate)));
            let (p2, a2) = outcome_spec(p1, Ok(()));
            let (p3, a3) = outcome_spec(p2, Ok(()));
            &&& a1 == Action::Invoke(Leg { kind: LegKind::Net, amount: gross })
            &&& a2 == Action::Invoke(Leg { kind: LegKind::Unit, amount: 1 })
            &&& a3 == Action::Finish(Ok(()))
            &&& p3.issued == 2
            &&& p3.phase == Phase::Finished
        }),
{
}

/// A failed net transfer ends the swap with that very error: neither the unit
/// nor the fee leg is handed out.
pub proof fn lemma_net_failure_ends_swap(gross: u64, rate: u64, e: ProgramError)
    requires
        rate <= MAX_RATE_PERCENT,
    ensures
        ({
            let (p1, a1) = start_spec(initial(intent_of(gross, rate)));
            let (p2, a2) = outcome_spec(p1, Err(e));
            &&& a1 == Action::Invoke(
                Leg { kind: LegKind::Net, amount: intent_of(gross, rate).net },
            )
            &&& a2 == Action::Finish(Err(SwapError::Ledger(e)))
            &&& p2.issued == 1
            &&& p2.phase == Phase::Finished
        }),
{
}

/// A failed unit transfer after a successful net transfer ends the swap with
/// that very error: the fee leg is not handed out.
pub proof fn lemma_unit_failure_ends_swap(gross: u64, rate: u64, e: ProgramError)
    requires
        rate <= MAX_RATE_PERCENT,
    ensures
        ({
            let (p1, a1) = start_spec(initial(intent_of(gross, rate)));
            let (p2, a2) = outcome_spec(p1, Ok(()));
            let (p3, a3) = outcome_spec(p2, Err(e));
            &&& a2 == Action::Invoke(Leg { kind: LegKind::Unit, amount: 1 })
            &&& a3 == Action::Finish(Err(SwapError::Ledger(e)))
            &&& p3.issued == 2
            &&& p3.phase == Phase::Finished
        }),
{
}

/// Every leg handed out is the next planned one, and the fee leg comes last.
pub proof fn lemma_outcome_follows_plan(p: Progress, outcome: Result<(), ProgramError>)
    requires
        1 <= p.issued <= planned_legs(p.intent).len(),
    ensures
        ({
            let (q, a) = outcome_spec(p, outcome);
            &&& a is Invoke ==> q.issued == p.issued + 1 && a->Invoke_0 == planned_legs(
                p.intent,
            )[p.issued as int]
            &&& a is Invoke && a->Invoke_0.kind == LegKind::Fee ==> q.issued == planned_legs(
                p.intent,
            ).len()
            &&& a is Finish ==> q.phase == Phase::Finished && q.issued == p.issued
        }),
{
}

} // verus!
