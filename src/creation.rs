//! The protocol of creating a proposal. The codex decides each step; the
//! caller performs it with the outside collaborators (origin validation, the
//! engine, the discussion subsystem) and reports the outcome as an event.
//!
//! Order of the steps: the payload is checked and its parameters resolved,
//! the proposer's origin is resolved, the engine checks its own admission
//! constraints, the discussion subsystem confirms that a thread can be opened,
//! the engine admits the proposal, the thread is opened, and only then is the
//! proposal recorded. Opening the thread after admission means that a
//! rejected proposal leaves no thread behind.
use vstd::prelude::*;

use crate::codex::{check_proposal, proposal_check, Codex};
use crate::parameters::ParameterRegistry;
use crate::types::{Error, GeneralProposalParams, ProposalDetails, ProposalParameters};

verus! {

/// Where a creation stands.
#[derive(Clone, Copy, Debug, PartialEq, Eq, Structural)]
pub enum CreationStage {
    ResolvingOrigin,
    ValidatingAdmission { account_id: u64 },
    CheckingThread { account_id: u64 },
    Admitting { account_id: u64 },
    OpeningThread { proposal_id: u64 },
    Finished { proposal_id: u64, thread_id: u64 },
    Aborted,
}

/// The outcome of the step that the caller was asked to perform.
#[derive(Clone, Copy, Debug, PartialEq, Eq, Structural)]
pub enum CreationEvent {
    /// The origin belongs to the proposer; its controller account.
    OriginResolved(u64),
    /// The engine accepts the proposal's title, description, staking account
    /// and execution block under its parameters.
    AdmissionValid,
    /// A thread can be opened in open mode.
    ThreadAllowed,
    /// The engine admitted the proposal under this identity.
    Admitted(u64),
    /// The discussion thread was opened under this identity.
    ThreadOpened(u64),
    /// The step failed; the caller surfaces the collaborator's own error.
    Failed,
}

/// What the caller is asked to do next.
#[derive(Clone, Copy, Debug, PartialEq, Eq, Structural)]
pub enum CreationAction {
    /// Resolve the origin against the proposer's membership.
    ResolveOrigin { member_id: u64 },
    /// Ask the engine to check its admission constraints under `parameters`.
    ValidateAdmission { parameters: ProposalParameters },
    /// Ask the discussion subsystem whether an open thread can be created.
    CheckThreadAllowed,
    /// Encode the payload and ask the engine to admit the proposal.
    Admit { account_id: u64, proposer_id: u64, parameters: ProposalParameters },
    /// Open the proposal's discussion thread in open mode.
    OpenThread { author: u64 },
    /// The proposal is admitted, recorded, and has its thread.
    Finish { proposal_id: u64, thread_id: u64 },
    /// The creation stopped at a failed step.
    Abort,
}

/// A proposal on its way through creation.
pub struct ProposalCreation {
    pub stage: CreationStage,
    pub member_id: u64,
    pub parameters: ProposalParameters,
    /// The payload, until it is recorded.
    pub details: Option<ProposalDetails>,
}

/// The stage after `event` has answered the step asked at `stage`. An event
/// that answers another step changes nothing; a finished or aborted creation
/// stays as it is.
pub open spec fn next_stage(stage: CreationStage, event: CreationEvent) -> CreationStage {
    match (stage, event) {
        (CreationStage::Finished { .. }, _) => stage,
        (CreationStage::Aborted, _) => stage,
        (_, CreationEvent::Failed) => CreationStage::Aborted,
        (CreationStage::ResolvingOrigin, CreationEvent::OriginResolved(account_id)) => {
            CreationStage::ValidatingAdmission { account_id }
        },
        (CreationStage::ValidatingAdmission { account_id }, CreationEvent::AdmissionValid) => {
            CreationStage::CheckingThread { account_id }
        },
        (CreationStage::CheckingThread { account_id }, CreationEvent::ThreadAllowed) => {
            CreationStage::Admitting { account_id }
        },
        (CreationStage::Admitting { .. }, CreationEvent::Admitted(proposal_id)) => {
            CreationStage::OpeningThread { proposal_id }
        },
        (CreationStage::OpeningThread { proposal_id }, CreationEvent::ThreadOpened(thread_id)) => {
            CreationStage::Finished { proposal_id, thread_id }
        },
        _ => stage,
    }
}

/// The step asked of the caller at `stage`.
pub open spec fn pending_action(
    stage: CreationStage,
    member_id: u64,
    parameters: ProposalParameters,
) -> CreationAction {
    match stage {
        CreationStage::ResolvingOrigin => CreationAction::ResolveOrigin { member_id },
        CreationStage::ValidatingAdmission { .. } => CreationAction::ValidateAdmission {
            parameters,
        },
        CreationStage::CheckingThread { .. } => CreationAction::CheckThreadAllowed,
        CreationStage::Admitting { account_id } => CreationAction::Admit {
            account_id,
            proposer_id: member_id,
            parameters,
        },
        CreationStage::OpeningThread { .. } => CreationAction::OpenThread { author: member_id },
        CreationStage::Finished { proposal_id, thread_id } => CreationAction::Finish {
            proposal_id,
            thread_id,
        },
        CreationStage::Aborted => CreationAction::Abort,
    }
}

impl ProposalCreation {
    /// The payload is held until the proposal is recorded.
    pub open spec fn well_formed(&self) -> bool {
        self.stage is Finished <==> self.details is None
    }

    /// The step asked of the caller now.
    pub open spec fn action(&self) -> CreationAction {
        pending_action(self.stage, self.member_id, self.parameters)
    }

    /// The step asked of the caller now.
    pub fn next_action(&self) -> (r: CreationAction)
        ensures
            r == self.action(),
    {
        match self.stage {
            CreationStage::ResolvingOrigin => CreationAction::ResolveOrigin {
                member_id: self.member_id,
            },
            CreationStage::ValidatingAdmission { .. } => CreationAction::ValidateAdmission {
                parameters: self.parameters,
            },
            CreationStage::CheckingThread { .. } => CreationAction::CheckThreadAllowed,
            CreationStage::Admitting { account_id } => CreationAction::Admit {
                account_id,
                proposer_id: self.member_id,
                parameters: self.parameters,
            },
            CreationStage::OpeningThread { .. } => CreationAction::OpenThread {
                author: self.member_id,
            },
            CreationStage::Finished { proposal_id, thread_id } => CreationAction::Finish {
                proposal_id,
                thread_id,
            },
            CreationStage::Aborted => CreationAction::Abort,
        }
    }

    /// Takes the outcome of the step asked, records the proposal once its
    /// thread is open, and returns the next step.
    pub fn on_event(&mut self, codex: &mut Codex, event: CreationEvent) -> (r: CreationAction)
        ensures
            final(self).stage == next_stage(old(self).stage, event),
            final(self).member_id == old(self).member_id,
            final(self).parameters == old(self).parameters,
            old(self).well_formed() ==> final(self).well_formed(),
            r == final(self).action(),
            old(codex)@.well_formed() ==> final(codex)@.well_formed(),
            match (old(self).stage, event, old(self).details) {
                (
                    CreationStage::OpeningThread { proposal_id },
                    CreationEvent::ThreadOpened(thread_id),
                    Some(details),
                ) => final(codex)@ == old(codex)@.recorded(proposal_id, thread_id, details)
                    && final(self).details == None::<ProposalDetails>,
                (CreationStage::OpeningThread { .. }, CreationEvent::ThreadOpened(_), None) => {
                    final(codex)@ == old(codex)@ && final(self).details == None::<ProposalDetails>
                },
                _ => final(codex)@ == old(codex)@ && final(self).details == old(self).details,
            },
    {
        let next = match (self.stage, event) {
            (CreationStage::Finished { .. }, _) => self.stage,
            (CreationStage::Aborted, _) => self.stage,
            (_, CreationEvent::Failed) => CreationStage::Aborted,
            (CreationStage::ResolvingOrigin, CreationEvent::OriginResolved(account_id)) => {
                CreationStage::ValidatingAdmission { account_id }
            },
            (CreationStage::ValidatingAdmission { account_id }, CreationEvent::AdmissionValid) => {
                CreationStage::CheckingThread { account_id }
            },
            (CreationStage::CheckingThread { account_id }, CreationEvent::ThreadAllowed) => {
                CreationStage::Admitting { account_id }
            },
            (CreationStage::Admitting { .. }, CreationEvent::Admitted(proposal_id)) => {
                CreationStage::OpeningThread { proposal_id }
            },
            (
                CreationStage::OpeningThread { proposal_id },
                CreationEvent::ThreadOpened(thread_id),
            ) => {
                let details = self.details.take();
                match details {
                    Some(d) => codex.record_proposal(proposal_id, thread_id, d),
                    None => {},
                }
                CreationStage::Finished { proposal_id, thread_id }
            },
            _ => self.stage,
        };
        self.stage = next;
        self.next_action()
    }
}

/// Outcome of starting a creation: the codex's own checks, then a creation
/// that first asks for the proposer's origin.
pub open spec fn creation_start(
    registry: ParameterRegistry,
    general: GeneralProposalParams,
    details: ProposalDetails,
    min_validator_count: u32,
) -> Result<(CreationStage, u64, ProposalParameters), Error> {
    match proposal_check(registry, details, min_validator_count) {
        Ok(parameters) => Ok((CreationStage::ResolvingOrigin, general.member_id, parameters)),
        Err(e) => Err(e),
    }
}

/// Starts creating a proposal: checks its payload and resolves its
/// parameters. On `Ok` the first step is to resolve the proposer's origin.
pub fn create_proposal(
    registry: &ParameterRegistry,
    general: &GeneralProposalParams,
    details: ProposalDetails,
    min_validator_count: u32,
) -> (r: Result<ProposalCreation, Error>)
    ensures
        match creation_start(*registry, *general, details, min_validator_count) {
            Ok((stage, member_id, parameters)) => r is Ok && r->Ok_0.stage == stage
                && r->Ok_0.member_id == member_id && r->Ok_0.parameters == parameters
                && r->Ok_0.details == Some(details),
            Err(e) => r == Err::<ProposalCreation, Error>(e),
        },
        r is Ok ==> r->Ok_0.well_formed(),
{
    match check_proposal(registry, &details, min_validator_count) {
        Ok(parameters) => Ok(
            ProposalCreation {
                stage: CreationStage::ResolvingOrigin,
                member_id: general.member_id,
                parameters,
                details: Some(details),
            },
        ),
        Err(e) => Err(e),
    }
}

/// When every step succeeds, a creation asks for the origin, the engine's
/// check, the thread check, the admission and the thread, in that order, and
/// then finishes with the admitted identity and the opened thread.
pub proof fn lemma_successful_creation(
    member_id: u64,
    parameters: ProposalParameters,
    account_id: u64,
    proposal_id: u64,
    thread_id: u64,
)
    ensures
        ({
            let s0 = CreationStage::ResolvingOrigin;
            let s1 = next_stage(s0, CreationEvent::OriginResolved(account_id));
            let s2 = next_stage(s1, CreationEvent::AdmissionValid);
            let s3 = next_stage(s2, CreationEvent::ThreadAllowed);
            let s4 = next_stage(s3, CreationEvent::Admitted(proposal_id));
            let s5 = next_stage(s4, CreationEvent::ThreadOpened(thread_id));
            &&& pending_action(s0, member_id, parameters) == CreationAction::ResolveOrigin {
                member_id,
            }
            &&& pending_action(s1, member_id, parameters) == CreationAction::ValidateAdmission {
                parameters,
            }
            &&& pending_action(s2, member_id, parameters) == CreationAction::CheckThreadAllowed
            &&& pending_action(s3, member_id, parameters) == CreationAction::Admit {
                account_id,
                proposer_id: member_id,
                parameters,
            }
            &&& pending_action(s4, member_id, parameters) == CreationAction::OpenThread {
                author: member_id,
            }
            &&& s5 == CreationStage::Finished { proposal_id, thread_id }
        }),
{
}

/// A failed step aborts a creation that has not finished; a finished or
/// aborted creation ignores every later event.
pub proof fn lemma_failure_aborts(stage: CreationStage, event: CreationEvent)
    ensures
        !(stage is Finished) && !(stage is Aborted) ==> next_stage(stage, CreationEvent::Failed)
            == CreationStage::Aborted,
        (stage is Finished || stage is Aborted) ==> next_stage(stage, event) == stage,
{
}

} // verus!
