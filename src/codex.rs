//! The codex's own records of admitted proposals, and the decisions it makes
//! when a proposal is created and when the engine disposes of one.
use std::collections::HashMap;
use vstd::prelude::*;

use crate::parameters::{parameters_for, ParameterRegistry};
use crate::types::{Error, ProposalDetails, ProposalParameters};
use crate::validation::{details_check, ensure_details_checks};

verus! {

broadcast use vstd::std_specs::hash::group_hash_axioms;

/// What the codex knows of admitted proposals: the discussion thread of each
/// proposal and its full payload.
pub struct CodexView {
    pub threads: Map<u64, u64>,
    pub details: Map<u64, ProposalDetails>,
}

impl CodexView {
    /// Both tables know the same proposals.
    pub open spec fn well_formed(self) -> bool {
        self.threads.dom() == self.details.dom()
    }

    /// The records after a proposal has been admitted with its thread.
    pub open spec fn recorded(self, proposal_id: u64, thread_id: u64, details: ProposalDetails) -> CodexView {
        CodexView {
            threads: self.threads.insert(proposal_id, thread_id),
            details: self.details.insert(proposal_id, details),
        }
    }

    /// The records after a proposal has been disposed of.
    pub open spec fn removed(self, proposal_id: u64) -> CodexView {
        CodexView {
            threads: self.threads.remove(proposal_id),
            details: self.details.remove(proposal_id),
        }
    }

    /// The thread recorded for a proposal, if any.
    pub open spec fn thread_of(self, proposal_id: u64) -> Option<u64> {
        if self.threads.contains_key(proposal_id) {
            Some(self.threads[proposal_id])
        } else {
            None
        }
    }
}

/// The records of admitted proposals, keyed by the identity that the engine
/// minted for each.
pub struct Codex {
    thread_id_by_proposal_id: HashMap<u64, u64>,
    proposal_details_by_proposal_id: HashMap<u64, ProposalDetails>,
}

impl View for Codex {
    type V = CodexView;

    closed spec fn view(&self) -> CodexView {
        CodexView {
            threads: self.thread_id_by_proposal_id@,
            details: self.proposal_details_by_proposal_id@,
        }
    }
}

/// Outcome of the codex's own checks on a new proposal: its payload passes
/// the rules of its kind, and then the parameters of that kind govern it.
pub open spec fn proposal_check(
    registry: ParameterRegistry,
    details: ProposalDetails,
    min_validator_count: u32,
) -> Result<ProposalParameters, Error> {
    match details_check(details, min_validator_count) {
        Ok(_) => Ok(parameters_for(registry, details)),
        Err(e) => Err(e),
    }
}

/// The codex's part of creating a proposal, before the engine is asked to
/// admit it: checks the payload and resolves the parameters that will govern
/// it. Nothing is recorded.
pub fn check_proposal(
    registry: &ParameterRegistry,
    details: &ProposalDetails,
    min_validator_count: u32,
) -> (r: Result<ProposalParameters, Error>)
    ensures
        r == proposal_check(*registry, *details, min_validator_count),
{
    match ensure_details_checks(details, min_validator_count) {
        Ok(()) => Ok(registry.get_proposal_parameters(details)),
        Err(e) => Err(e),
    }
}

impl Codex {
    /// A codex with no records.
    pub fn new() -> (r: Codex)
        ensures
            r@.threads == Map::<u64, u64>::empty(),
            r@.details == Map::<u64, ProposalDetails>::empty(),
            r@.well_formed(),
    {
        Codex {
            thread_id_by_proposal_id: HashMap::new(),
            proposal_details_by_proposal_id: HashMap::new(),
        }
    }

    /// The discussion thread of an admitted proposal.
    pub fn thread_id_by_proposal_id(&self, proposal_id: u64) -> (r: Option<u64>)
        ensures
            r == self@.thread_of(proposal_id),
    {
        match self.thread_id_by_proposal_id.get(&proposal_id) {
            Some(t) => Some(*t),
            None => None,
        }
    }

    /// The payload of an admitted proposal.
    pub fn proposal_details(&self, proposal_id: u64) -> (r: Option<&ProposalDetails>)
        ensures
            match r {
                Some(d) => self@.details.contains_key(proposal_id) && *d == self@.details[proposal_id],
                None => !self@.details.contains_key(proposal_id),
            },
    {
        self.proposal_details_by_proposal_id.get(&proposal_id)
    }

    /// Records a proposal that the engine has admitted under `proposal_id`,
    /// with the discussion thread opened for it and its payload.
    pub fn record_proposal(&mut self, proposal_id: u64, thread_id: u64, details: ProposalDetails)
        ensures
            final(self)@ == old(self)@.recorded(proposal_id, thread_id, details),
            old(self)@.well_formed() ==> final(self)@.well_formed(),
    {
        self.thread_id_by_proposal_id.insert(proposal_id, thread_id);
        self.proposal_details_by_proposal_id.insert(proposal_id, details);
        assert(old(self)@.well_formed() ==> self@.threads.dom() =~= self@.details.dom());
    }

    /// Reacts to the engine disposing of a proposal, for whatever reason:
    /// removes both records of it and returns the thread whose record and
    /// posts the discussion subsystem must remove. An unknown proposal
    /// changes nothing and returns no thread.
    pub fn proposal_removed(&mut self, proposal_id: u64) -> (r: Option<u64>)
        ensures
            final(self)@ == old(self)@.removed(proposal_id),
            old(self)@.well_formed() ==> final(self)@.well_formed(),
            r == old(self)@.thread_of(proposal_id),
    {
        let thread_id = self.thread_id_by_proposal_id.remove(&proposal_id);
        self.proposal_details_by_proposal_id.remove(&proposal_id);
        assert(old(self)@.well_formed() ==> self@.threads.dom() =~= self@.details.dom());
        thread_id
    }
}

/// Disposing of a proposal twice changes nothing the second time, and the
/// second time there is no thread left to remove.
pub proof fn lemma_proposal_removed_idempotent(v: CodexView, proposal_id: u64)
    ensures
        v.removed(proposal_id).removed(proposal_id) == v.removed(proposal_id),
        v.removed(proposal_id).thread_of(proposal_id) == None::<u64>,
{
    assert(v.removed(proposal_id).removed(proposal_id).threads =~= v.removed(proposal_id).threads);
    assert(v.removed(proposal_id).removed(proposal_id).details =~= v.removed(proposal_id).details);
}

/// Recording a proposal under a fresh identity and then disposing of it
/// leaves the records as they were, and the disposal hands back the thread
/// opened for it.
pub proof fn lemma_record_then_remove(
    v: CodexView,
    proposal_id: u64,
    thread_id: u64,
    details: ProposalDetails,
)
    requires
        v.well_formed(),
        !v.threads.contains_key(proposal_id),
    ensures
        v.recorded(proposal_id, thread_id, details).thread_of(proposal_id) == Some(thread_id),
        v.recorded(proposal_id, thread_id, details).removed(proposal_id) == v,
{
    let after = v.recorded(proposal_id, thread_id, details).removed(proposal_id);
    assert(after.threads =~= v.threads);
    assert(after.details =~= v.details);
}

} // verus!
