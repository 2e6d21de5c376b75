//! The registry of voting and execution parameters, one record per kind of
//! proposal.
use vstd::prelude::*;

use crate::types::{ProposalDetails, ProposalParameters};

verus! {

/// Process-wide configuration: the parameters that govern each kind of
/// proposal. It is fixed when the system is configured.
#[derive(Clone, Copy, Debug, PartialEq, Eq, Structural)]
pub struct ParameterRegistry {
    /// 'Signal' proposal parameters.
    pub signal_proposal_parameters: ProposalParameters,
    /// 'Runtime Upgrade' proposal parameters.
    pub runtime_upgrade_proposal_parameters: ProposalParameters,
    /// 'Funding Request' proposal parameters.
    pub funding_request_proposal_parameters: ProposalParameters,
    /// 'Set Max Validator Count' proposal parameters.
    pub set_max_validator_count_proposal_parameters: ProposalParameters,
    /// 'Create Working Group Lead Opening' proposal parameters.
    pub create_working_group_lead_opening_proposal_parameters: ProposalParameters,
    /// 'Fill Working Group Lead Opening' proposal parameters.
    pub fill_working_group_lead_opening_proposal_parameters: ProposalParameters,
    /// 'Update Working Group Budget' proposal parameters.
    pub update_working_group_budget_proposal_parameters: ProposalParameters,
    /// 'Decrease Working Group Lead Stake' proposal parameters.
    pub decrease_working_group_lead_stake_proposal_parameters: ProposalParameters,
    /// 'Slash Working Group Lead' proposal parameters.
    pub slash_working_group_lead_proposal_parameters: ProposalParameters,
    /// 'Set Working Group Lead Reward' proposal parameters.
    pub set_working_group_lead_reward_proposal_parameters: ProposalParameters,
    /// 'Terminate Working Group Lead' proposal parameters.
    pub terminate_working_group_lead_proposal_parameters: ProposalParameters,
    /// 'Amend Constitution' proposal parameters.
    pub amend_constitution_proposal_parameters: ProposalParameters,
    /// 'Cancel Working Group Lead Opening' proposal parameters.
    pub cancel_working_group_lead_opening_proposal_parameters: ProposalParameters,
    /// 'Set Membership Price' proposal parameters.
    pub set_membership_price_proposal_parameters: ProposalParameters,
    /// 'Set Council Budget Increment' proposal parameters.
    pub set_council_budget_increment_proposal_parameters: ProposalParameters,
    /// 'Set Councilor Reward' proposal parameters.
    pub set_councilor_reward_proposal_parameters: ProposalParameters,
    /// 'Set Initial Invitation Balance' proposal parameters.
    pub set_initial_invitation_balance_proposal_parameters: ProposalParameters,
    /// 'Set Initial Invitation Count' proposal parameters.
    pub set_invitation_count_proposal_parameters: ProposalParameters,
    /// 'Set Membership Lead Invitation Quota' proposal parameters.
    pub set_membership_lead_invitation_quota_proposal_parameters: ProposalParameters,
    /// 'Set Referral Cut' proposal parameters.
    pub set_referral_cut_proposal_parameters: ProposalParameters,
    /// 'Create Blog Post' proposal parameters.
    pub create_blog_post_proposal_parameters: ProposalParameters,
    /// 'Edit Blog Post' proposal parameters.
    pub edit_blog_post_proposal_parameters: ProposalParameters,
    /// 'Lock Blog Post' proposal parameters.
    pub lock_blog_post_proposal_parameters: ProposalParameters,
    /// 'Unlock Blog Post' proposal parameters.
    pub unlock_blog_post_proposal_parameters: ProposalParameters,
}

/// The parameters that govern a proposal with the given payload.
pub open spec fn parameters_for(registry: ParameterRegistry, details: ProposalDetails) -> ProposalParameters {
    match details {
        ProposalDetails::Signal(..) => registry.signal_proposal_parameters,
        ProposalDetails::RuntimeUpgrade(..) => registry.runtime_upgrade_proposal_parameters,
        ProposalDetails::FundingRequest(..) => registry.funding_request_proposal_parameters,
        ProposalDetails::SetMaxValidatorCount(..) => registry.set_max_validator_count_proposal_parameters,
        ProposalDetails::CreateWorkingGroupLeadOpening(..) => registry.create_working_group_lead_opening_proposal_parameters,
        ProposalDetails::FillWorkingGroupLeadOpening(..) => registry.fill_working_group_lead_opening_proposal_parameters,
        ProposalDetails::UpdateWorkingGroupBudget(..) => registry.update_working_group_budget_proposal_parameters,
        ProposalDetails::DecreaseWorkingGroupLeadStake(..) => registry.decrease_working_group_lead_stake_proposal_parameters,
        ProposalDetails::SlashWorkingGroupLead(..) => registry.slash_working_group_lead_proposal_parameters,
        ProposalDetails::SetWorkingGroupLeadReward(..) => registry.set_working_group_lead_reward_proposal_parameters,
        ProposalDetails::TerminateWorkingGroupLead(..) => registry.terminate_working_group_lead_proposal_parameters,
        ProposalDetails::AmendConstitution(..) => registry.amend_constitution_proposal_parameters,
        ProposalDetails::CancelWorkingGroupLeadOpening(..) => registry.cancel_working_group_lead_opening_proposal_parameters,
        ProposalDetails::SetMembershipPrice(..) => registry.set_membership_price_proposal_parameters,
        ProposalDetails::SetCouncilBudgetIncrement(..) => registry.set_council_budget_increment_proposal_parameters,
        ProposalDetails::SetCouncilorReward(..) => registry.set_councilor_reward_proposal_parameters,
        ProposalDetails::SetInitialInvitationBalance(..) => registry.set_initial_invitation_balance_proposal_parameters,
        ProposalDetails::SetInitialInvitationCount(..) => registry.set_invitation_count_proposal_parameters,
        ProposalDetails::SetMembershipLeadInvitationQuota(..) => registry.set_membership_lead_invitation_quota_proposal_parameters,
        ProposalDetails::SetReferralCut(..) => registry.set_referral_cut_proposal_parameters,
        ProposalDetails::CreateBlogPost(..) => registry.create_blog_post_proposal_parameters,
        ProposalDetails::EditBlogPost(..) => registry.edit_blog_post_proposal_parameters,
        ProposalDetails::LockBlogPost(..) => registry.lock_blog_post_proposal_parameters,
        ProposalDetails::UnlockBlogPost(..) => registry.unlock_blog_post_proposal_parameters,
    }
}

impl ParameterRegistry {
    /// Looks up the parameters of a proposal's kind. Defined for every kind.
    pub fn get_proposal_parameters(&self, details: &ProposalDetails) -> (r: ProposalParameters)
        ensures
            r == parameters_for(*self, *details),
    {
        match details {
            ProposalDetails::Signal(..) => self.signal_proposal_parameters,
            ProposalDetails::RuntimeUpgrade(..) => self.runtime_upgrade_proposal_parameters,
            ProposalDetails::FundingRequest(..) => self.funding_request_proposal_parameters,
            ProposalDetails::SetMaxValidatorCount(..) => self.set_max_validator_count_proposal_parameters,
            ProposalDetails::CreateWorkingGroupLeadOpening(..) => self.create_working_group_lead_opening_proposal_parameters,
            ProposalDetails::FillWorkingGroupLeadOpening(..) => self.fill_working_group_lead_opening_proposal_parameters,
            ProposalDetails::UpdateWorkingGroupBudget(..) => self.update_working_group_budget_proposal_parameters,
            ProposalDetails::DecreaseWorkingGroupLeadStake(..) => self.decrease_working_group_lead_stake_proposal_parameters,
            ProposalDetails::SlashWorkingGroupLead(..) => self.slash_working_group_lead_proposal_parameters,
            ProposalDetails::SetWorkingGroupLeadReward(..) => self.set_working_group_lead_reward_proposal_parameters,
            ProposalDetails::TerminateWorkingGroupLead(..) => self.terminate_working_group_lead_proposal_parameters,
            ProposalDetails::AmendConstitution(..) => self.amend_constitution_proposal_parameters,
            ProposalDetails::CancelWorkingGroupLeadOpening(..) => self.cancel_working_group_lead_opening_proposal_parameters,
            ProposalDetails::SetMembershipPrice(..) => self.set_membership_price_proposal_parameters,
            ProposalDetails::SetCouncilBudgetIncrement(..) => self.set_council_budget_increment_proposal_parameters,
            ProposalDetails::SetCouncilorReward(..) => self.set_councilor_reward_proposal_parameters,
            ProposalDetails::SetInitialInvitationBalance(..) => self.set_initial_invitation_balance_proposal_parameters,
            ProposalDetails::SetInitialInvitationCount(..) => self.set_invitation_count_proposal_parameters,
            ProposalDetails::SetMembershipLeadInvitationQuota(..) => self.set_membership_lead_invitation_quota_proposal_parameters,
            ProposalDetails::SetReferralCut(..) => self.set_referral_cut_proposal_parameters,
            ProposalDetails::CreateBlogPost(..) => self.create_blog_post_proposal_parameters,
            ProposalDetails::EditBlogPost(..) => self.edit_blog_post_proposal_parameters,
            ProposalDetails::LockBlogPost(..) => self.lock_blog_post_proposal_parameters,
            ProposalDetails::UnlockBlogPost(..) => self.unlock_blog_post_proposal_parameters,
        }
    }
}

} // verus!
