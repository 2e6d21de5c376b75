//! Resource-cost estimates of creating and executing proposals.
use vstd::prelude::*;

use crate::types::{BalanceKind, GeneralProposalParams, ProposalDetails, WorkingGroup};

verus! {

/// A length as the weight formulas count it: saturated to `u32::MAX`.
pub open spec fn saturated_len(n: nat) -> u32 {
    if n > u32::MAX {
        u32::MAX
    } else {
        n as u32
    }
}

fn saturated_len_of(n: usize) -> (r: u32)
    ensures
        r == saturated_len(n as nat),
{
    if n > u32::MAX as usize {
        u32::MAX
    } else {
        n as u32
    }
}

fn saturating_mul(x: u64, y: u64) -> (r: u64)
    ensures
        r == if x * y > u64::MAX {
            u64::MAX as int
        } else {
            x * y
        },
{
    match x.checked_mul(y) {
        Some(p) => p,
        None => u64::MAX,
    }
}

/// The weight of one operation: a base cost plus a cost per unit of each of
/// up to four measured lengths, saturating at `u64::MAX`.
#[derive(Clone, Copy, Debug, PartialEq, Eq, Structural)]
pub struct WeightFormula {
    pub base: u64,
    pub per_first: u64,
    pub per_second: u64,
    pub per_third: u64,
    pub per_fourth: u64,
}

impl WeightFormula {
    /// The weight for the given lengths, before saturation.
    pub open spec fn exact(self, a: int, b: int, c: int, d: int) -> int {
        self.base + self.per_first * a + self.per_second * b + self.per_third * c + self.per_fourth
            * d
    }

    /// The weight for the given lengths.
    pub open spec fn value(self, a: int, b: int, c: int, d: int) -> u64 {
        let w = self.exact(a, b, c, d);
        if w > u64::MAX {
            u64::MAX
        } else {
            w as u64
        }
    }

    /// A formula with no cost per unit.
    pub fn constant(base: u64) -> (r: WeightFormula)
        ensures
            r.base == base,
            r.per_first == 0,
            r.per_second == 0,
            r.per_third == 0,
            r.per_fourth == 0,
    {
        WeightFormula { base, per_first: 0, per_second: 0, per_third: 0, per_fourth: 0 }
    }

    /// Evaluates the formula on the given lengths.
    pub fn weight(&self, a: u32, b: u32, c: u32, d: u32) -> (r: u64)
        ensures
            r == self.value(a as int, b as int, c as int, d as int),
    {
        let pa = saturating_mul(self.per_first, a as u64);
        let pb = saturating_mul(self.per_second, b as u64);
        let pc = saturating_mul(self.per_third, c as u64);
        let pd = saturating_mul(self.per_fourth, d as u64);
        let r = self.base.saturating_add(pa).saturating_add(pb).saturating_add(pc).saturating_add(
            pd,
        );
        proof {
            assert(self.per_first * a >= 0 && self.per_second * b >= 0 && self.per_third * c >= 0
                && self.per_fourth * d >= 0) by (nonlinear_arith);
        }
        r
    }
}

/// Weights of the codex's operations, one formula per operation. The
/// comment on each field names the lengths that its formula measures, in
/// order: `i` a payload, `t` the title, `d` the description, `h` and `b` a
/// blog post's header and body.
#[derive(Clone, Copy, Debug, PartialEq, Eq, Structural)]
pub struct WeightInfo {
    /// `i`: the signal.
    pub execute_signal_proposal: WeightFormula,
    /// `i`, `t`, `d`.
    pub create_proposal_signal: WeightFormula,
    /// `i`, `t`, `d`.
    pub create_proposal_runtime_upgrade: WeightFormula,
    /// `i`: the number of funding entries.
    pub create_proposal_funding_request: WeightFormula,
    /// `d`.
    pub create_proposal_set_max_validator_count: WeightFormula,
    /// `i`: the opening's description.
    pub create_proposal_create_working_group_lead_opening: WeightFormula,
    pub create_proposal_fill_working_group_lead_opening: WeightFormula,
    /// `d`.
    pub create_proposal_update_working_group_budget: WeightFormula,
    /// `t`, `d`.
    pub create_proposal_decrease_working_group_lead_stake: WeightFormula,
    /// `t`, `d`.
    pub create_proposal_slash_working_group_lead: WeightFormula,
    /// `d`.
    pub create_proposal_set_working_group_lead_reward: WeightFormula,
    pub create_proposal_terminate_working_group_lead: WeightFormula,
    /// `i`, `t`, `d`.
    pub create_proposal_amend_constitution: WeightFormula,
    /// `t`, `d`.
    pub create_proposal_cancel_working_group_lead_opening: WeightFormula,
    pub create_proposal_set_membership_price: WeightFormula,
    pub create_proposal_set_council_budget_increment: WeightFormula,
    /// `t`.
    pub create_proposal_set_councilor_reward: WeightFormula,
    /// `t`, `d`.
    pub create_proposal_set_initial_invitation_balance: WeightFormula,
    pub create_proposal_set_initial_invitation_count: WeightFormula,
    /// `t`.
    pub create_proposal_set_membership_lead_invitation_quota: WeightFormula,
    /// `t`.
    pub create_proposal_set_referral_cut: WeightFormula,
    /// `t`, `d`, `h`, `b`.
    pub create_proposal_create_blog_post: WeightFormula,
    /// `t`, `d`, `h`, `b`; an absent header or body counts as empty.
    pub create_proposal_edit_blog_post: WeightFormula,
    /// `t`.
    pub create_proposal_lock_blog_post: WeightFormula,
    pub create_proposal_unlock_blog_post: WeightFormula,
    pub update_working_group_budget_positive_forum: WeightFormula,
    pub update_working_group_budget_negative_forum: WeightFormula,
    pub update_working_group_budget_positive_storage: WeightFormula,
    pub update_working_group_budget_negative_storage: WeightFormula,
    pub update_working_group_budget_positive_content: WeightFormula,
    pub update_working_group_budget_negative_content: WeightFormula,
    pub update_working_group_budget_positive_membership: WeightFormula,
    pub update_working_group_budget_negative_membership: WeightFormula,
}

/// Length of an optional blob, an absent one counting as empty.
pub open spec fn optional_len(blob: Option<Vec<u8>>) -> nat {
    match blob {
        Some(b) => b@.len(),
        None => 0,
    }
}

/// The weight of creating a proposal with the given metadata and payload.
pub open spec fn create_proposal_weight(
    w: WeightInfo,
    general: GeneralProposalParams,
    details: ProposalDetails,
) -> u64 {
    let t = saturated_len(general.title@.len()) as int;
    let d = saturated_len(general.description@.len()) as int;
    match details {
        ProposalDetails::Signal(signal) => w.create_proposal_signal.value(
            saturated_len(signal@.len()) as int,
            t,
            d,
            0,
        ),
        ProposalDetails::RuntimeUpgrade(blob) => w.create_proposal_runtime_upgrade.value(
            saturated_len(blob@.len()) as int,
            t,
            d,
            0,
        ),
        ProposalDetails::FundingRequest(requests) => w.create_proposal_funding_request.value(
            saturated_len(requests@.len()) as int,
            0,
            0,
            0,
        ),
        ProposalDetails::SetMaxValidatorCount(..) => w.create_proposal_set_max_validator_count.value(
            d,
            0,
            0,
            0,
        ),
        ProposalDetails::CreateWorkingGroupLeadOpening(
            opening,
        ) => w.create_proposal_create_working_group_lead_opening.value(
            saturated_len(opening.description@.len()) as int,
            0,
            0,
            0,
        ),
        ProposalDetails::FillWorkingGroupLeadOpening(
            ..,
        ) => w.create_proposal_fill_working_group_lead_opening.value(0, 0, 0, 0),
        ProposalDetails::UpdateWorkingGroupBudget(
            ..,
        ) => w.create_proposal_update_working_group_budget.value(d, 0, 0, 0),
        ProposalDetails::DecreaseWorkingGroupLeadStake(
            ..,
        ) => w.create_proposal_decrease_working_group_lead_stake.value(t, d, 0, 0),
        ProposalDetails::SlashWorkingGroupLead(
            ..,
        ) => w.create_proposal_slash_working_group_lead.value(t, d, 0, 0),
        ProposalDetails::SetWorkingGroupLeadReward(
            ..,
        ) => w.create_proposal_set_working_group_lead_reward.value(d, 0, 0, 0),
        ProposalDetails::TerminateWorkingGroupLead(
            ..,
        ) => w.create_proposal_terminate_working_group_lead.value(0, 0, 0, 0),
        ProposalDetails::AmendConstitution(text) => w.create_proposal_amend_constitution.value(
            saturated_len(text@.len()) as int,
            t,
            d,
            0,
        ),
        ProposalDetails::CancelWorkingGroupLeadOpening(
            ..,
        ) => w.create_proposal_cancel_working_group_lead_opening.value(t, d, 0, 0),
        ProposalDetails::SetMembershipPrice(..) => w.create_proposal_set_membership_price.value(
            0,
            0,
            0,
            0,
        ),
        ProposalDetails::SetCouncilBudgetIncrement(
            ..,
        ) => w.create_proposal_set_council_budget_increment.value(0, 0, 0, 0),
        ProposalDetails::SetCouncilorReward(..) => w.create_proposal_set_councilor_reward.value(
            t,
            0,
            0,
            0,
        ),
        ProposalDetails::SetInitialInvitationBalance(
            ..,
        ) => w.create_proposal_set_initial_invitation_balance.value(t, d, 0, 0),
        ProposalDetails::SetInitialInvitationCount(
            ..,
        ) => w.create_proposal_set_initial_invitation_count.value(0, 0, 0, 0),
        ProposalDetails::SetMembershipLeadInvitationQuota(
            ..,
        ) => w.create_proposal_set_membership_lead_invitation_quota.value(t, 0, 0, 0),
        ProposalDetails::SetReferralCut(..) => w.create_proposal_set_referral_cut.value(
            t,
            0,
            0,
            0,
        ),
        ProposalDetails::CreateBlogPost(header, body) => w.create_proposal_create_blog_post.value(
            t,
            d,
            saturated_len(header@.len()) as int,
            saturated_len(body@.len()) as int,
        ),
        ProposalDetails::EditBlogPost(_, header, body) => w.create_proposal_edit_blog_post.value(
            t,
            d,
            saturated_len(optional_len(header)) as int,
            saturated_len(optional_len(body)) as int,
        ),
        ProposalDetails::LockBlogPost(..) => w.create_proposal_lock_blog_post.value(t, 0, 0, 0),
        ProposalDetails::UnlockBlogPost(..) => w.create_proposal_unlock_blog_post.value(
            0,
            0,
            0,
            0,
        ),
    }
}

/// The formula that weighs a budget transfer of the given group and direction.
pub open spec fn update_working_group_budget_formula(
    w: WeightInfo,
    group: WorkingGroup,
    balance_kind: BalanceKind,
) -> WeightFormula {
    match (balance_kind, group) {
        (BalanceKind::Positive, WorkingGroup::Forum) => w.update_working_group_budget_positive_forum,
        (BalanceKind::Positive, WorkingGroup::Storage) => w.update_working_group_budget_positive_storage,
        (BalanceKind::Positive, WorkingGroup::Content) => w.update_working_group_budget_positive_content,
        (
            BalanceKind::Positive,
            WorkingGroup::Membership,
        ) => w.update_working_group_budget_positive_membership,
        (BalanceKind::Negative, WorkingGroup::Forum) => w.update_working_group_budget_negative_forum,
        (BalanceKind::Negative, WorkingGroup::Storage) => w.update_working_group_budget_negative_storage,
        (BalanceKind::Negative, WorkingGroup::Content) => w.update_working_group_budget_negative_content,
        (
            BalanceKind::Negative,
            WorkingGroup::Membership,
        ) => w.update_working_group_budget_negative_membership,
    }
}

fn optional_len_of(blob: &Option<Vec<u8>>) -> (r: usize)
    ensures
        r == optional_len(*blob),
{
    match blob {
        Some(b) => b.len(),
        None => 0,
    }
}

impl WeightInfo {
    /// The weight of executing a signal proposal.
    pub fn get_execute_signal_proposal_weight(&self, signal: &Vec<u8>) -> (r: u64)
        ensures
            r == self.execute_signal_proposal.value(saturated_len(signal@.len()) as int, 0, 0, 0),
    {
        self.execute_signal_proposal.weight(saturated_len_of(signal.len()), 0, 0, 0)
    }

    /// The weight of a budget transfer between the council and a working group.
    pub fn get_update_working_group_budget_weight(
        &self,
        group: &WorkingGroup,
        balance_kind: &BalanceKind,
    ) -> (r: u64)
        ensures
            r == update_working_group_budget_formula(*self, *group, *balance_kind).base,
    {
        let formula = match balance_kind {
            BalanceKind::Positive => match group {
                WorkingGroup::Forum => self.update_working_group_budget_positive_forum,
                WorkingGroup::Storage => self.update_working_group_budget_positive_storage,
                WorkingGroup::Content => self.update_working_group_budget_positive_content,
                WorkingGroup::Membership => self.update_working_group_budget_positive_membership,
            },
            BalanceKind::Negative => match group {
                WorkingGroup::Forum => self.update_working_group_budget_negative_forum,
                WorkingGroup::Storage => self.update_working_group_budget_negative_storage,
                WorkingGroup::Membership => self.update_working_group_budget_negative_membership,
                WorkingGroup::Content => self.update_working_group_budget_negative_content,
            },
        };
        formula.weight(0, 0, 0, 0)
    }

    /// The weight of creating a proposal. It reads only lengths, so it is
    /// defined for every payload, valid or not.
    pub fn get_create_proposal_weight(
        &self,
        general: &GeneralProposalParams,
        details: &ProposalDetails,
    ) -> (r: u64)
        ensures
            r == create_proposal_weight(*self, *general, *details),
    {
        let t = saturated_len_of(general.title.len());
        let d = saturated_len_of(general.description.len());
        match details {
            ProposalDetails::Signal(signal) => self.create_proposal_signal.weight(
                saturated_len_of(signal.len()),
                t,
                d,
                0,
            ),
            ProposalDetails::RuntimeUpgrade(blob) => self.create_proposal_runtime_upgrade.weight(
                saturated_len_of(blob.len()),
                t,
                d,
                0,
            ),
            ProposalDetails::FundingRequest(requests) => self.create_proposal_funding_request.weight(
                saturated_len_of(requests.len()),
                0,
                0,
                0,
            ),
            ProposalDetails::SetMaxValidatorCount(
                ..,
            ) => self.create_proposal_set_max_validator_count.weight(d, 0, 0, 0),
            ProposalDetails::CreateWorkingGroupLeadOpening(
                opening,
            ) => self.create_proposal_create_working_group_lead_opening.weight(
                saturated_len_of(opening.description.len()),
                0,
                0,
                0,
            ),
            ProposalDetails::FillWorkingGroupLeadOpening(
                ..,
            ) => self.create_proposal_fill_working_group_lead_opening.weight(0, 0, 0, 0),
            ProposalDetails::UpdateWorkingGroupBudget(
                ..,
            ) => self.create_proposal_update_working_group_budget.weight(d, 0, 0, 0),
            ProposalDetails::DecreaseWorkingGroupLeadStake(
                ..,
            ) => self.create_proposal_decrease_working_group_lead_stake.weight(t, d, 0, 0),
            ProposalDetails::SlashWorkingGroupLead(
                ..,
            ) => self.create_proposal_slash_working_group_lead.weight(t, d, 0, 0),
            ProposalDetails::SetWorkingGroupLeadReward(
                ..,
            ) => self.create_proposal_set_working_group_lead_reward.weight(d, 0, 0, 0),
            ProposalDetails::TerminateWorkingGroupLead(
                ..,
            ) => self.create_proposal_terminate_working_group_lead.weight(0, 0, 0, 0),
            ProposalDetails::AmendConstitution(
                text,
            ) => self.create_proposal_amend_constitution.weight(
                saturated_len_of(text.len()),
                t,
                d,
                0,
            ),
            ProposalDetails::CancelWorkingGroupLeadOpening(
                ..,
            ) => self.create_proposal_cancel_working_group_lead_opening.weight(t, d, 0, 0),
            ProposalDetails::SetMembershipPrice(
                ..,
            ) => self.create_proposal_set_membership_price.weight(0, 0, 0, 0),
            ProposalDetails::SetCouncilBudgetIncrement(
                ..,
            ) => self.create_proposal_set_council_budget_increment.weight(0, 0, 0, 0),
            ProposalDetails::SetCouncilorReward(
                ..,
            ) => self.create_proposal_set_councilor_reward.weight(t, 0, 0, 0),
            ProposalDetails::SetInitialInvitationBalance(
                ..,
            ) => self.create_proposal_set_initial_invitation_balance.weight(t, d, 0, 0),
            ProposalDetails::SetInitialInvitationCount(
                ..,
            ) => self.create_proposal_set_initial_invitation_count.weight(0, 0, 0, 0),
            ProposalDetails::SetMembershipLeadInvitationQuota(
                ..,
            ) => self.create_proposal_set_membership_lead_invitation_quota.weight(t, 0, 0, 0),
            ProposalDetails::SetReferralCut(
                ..,
            ) => self.create_proposal_set_referral_cut.weight(t, 0, 0, 0),
            ProposalDetails::CreateBlogPost(
                header,
                body,
            ) => self.create_proposal_create_blog_post.weight(
                t,
                d,
                saturated_len_of(header.len()),
                saturated_len_of(body.len()),
            ),
            ProposalDetails::EditBlogPost(_, header, body) => {
                let header_len = optional_len_of(header);
                let body_len = optional_len_of(body);
                self.create_proposal_edit_blog_post.weight(
                    t,
                    d,
                    saturated_len_of(header_len),
                    saturated_len_of(body_len),
                )
            },
            ProposalDetails::LockBlogPost(
                ..,
            ) => self.create_proposal_lock_blog_post.weight(t, 0, 0, 0),
            ProposalDetails::UnlockBlogPost(
                ..,
            ) => self.create_proposal_unlock_blog_post.weight(0, 0, 0, 0),
        }
    }
}

/// A formula never weighs more for shorter lengths.
pub proof fn lemma_formula_monotone(
    f: WeightFormula,
    a1: int,
    b1: int,
    c1: int,
    d1: int,
    a2: int,
    b2: int,
    c2: int,
    d2: int,
)
    requires
        0 <= a1 <= a2,
        0 <= b1 <= b2,
        0 <= c1 <= c2,
        0 <= d1 <= d2,
    ensures
        f.value(a1, b1, c1, d1) <= f.value(a2, b2, c2, d2),
{
    assert(f.per_first * a1 <= f.per_first * a2) by (nonlinear_arith)
        requires
            0 <= a1 <= a2,
            f.per_first >= 0,
    ;
    assert(f.per_second * b1 <= f.per_second * b2) by (nonlinear_arith)
        requires
            0 <= b1 <= b2,
            f.per_second >= 0,
    ;
    assert(f.per_third * c1 <= f.per_third * c2) by (nonlinear_arith)
        requires
            0 <= c1 <= c2,
            f.per_third >= 0,
    ;
    assert(f.per_fourth * d1 <= f.per_fourth * d2) by (nonlinear_arith)
        requires
            0 <= d1 <= d2,
            f.per_fourth >= 0,
    ;
}

/// Two payloads of the same kind, where every length that the weight
/// measures is no longer in `a` than in `b`.
pub open spec fn no_longer_payload(a: ProposalDetails, b: ProposalDetails) -> bool {
    match (a, b) {
        (ProposalDetails::Signal(x), ProposalDetails::Signal(y)) => x@.len() <= y@.len(),
        (ProposalDetails::RuntimeUpgrade(x), ProposalDetails::RuntimeUpgrade(y)) => x@.len()
            <= y@.len(),
        (ProposalDetails::FundingRequest(x), ProposalDetails::FundingRequest(y)) => x@.len()
            <= y@.len(),
        (
            ProposalDetails::CreateWorkingGroupLeadOpening(x),
            ProposalDetails::CreateWorkingGroupLeadOpening(y),
        ) => x.description@.len() <= y.description@.len(),
        (ProposalDetails::AmendConstitution(x), ProposalDetails::AmendConstitution(y)) => x@.len()
            <= y@.len(),
        (ProposalDetails::CreateBlogPost(h1, b1), ProposalDetails::CreateBlogPost(h2, b2)) => h1@.len()
            <= h2@.len() && b1@.len() <= b2@.len(),
        (ProposalDetails::EditBlogPost(_, h1, b1), ProposalDetails::EditBlogPost(_, h2, b2)) => {
            optional_len(h1) <= optional_len(h2) && optional_len(b1) <= optional_len(b2)
        },
        (ProposalDetails::SetMaxValidatorCount(..), ProposalDetails::SetMaxValidatorCount(..)) => true,
        (
            ProposalDetails::FillWorkingGroupLeadOpening(..),
            ProposalDetails::FillWorkingGroupLeadOpening(..),
        ) => true,
        (
            ProposalDetails::UpdateWorkingGroupBudget(..),
            ProposalDetails::UpdateWorkingGroupBudget(..),
        ) => true,
        (
            ProposalDetails::DecreaseWorkingGroupLeadStake(..),
            ProposalDetails::DecreaseWorkingGroupLeadStake(..),
        ) => true,
        (ProposalDetails::SlashWorkingGroupLead(..), ProposalDetails::SlashWorkingGroupLead(..)) => true,
        (
            ProposalDetails::SetWorkingGroupLeadReward(..),
            ProposalDetails::SetWorkingGroupLeadReward(..),
        ) => true,
        (
            ProposalDetails::TerminateWorkingGroupLead(..),
            ProposalDetails::TerminateWorkingGroupLead(..),
        ) => true,
        (
            ProposalDetails::CancelWorkingGroupLeadOpening(..),
            ProposalDetails::CancelWorkingGroupLeadOpening(..),
        ) => true,
        (ProposalDetails::SetMembershipPrice(..), ProposalDetails::SetMembershipPrice(..)) => true,
        (
            ProposalDetails::SetCouncilBudgetIncrement(..),
            ProposalDetails::SetCouncilBudgetIncrement(..),
        ) => true,
        (ProposalDetails::SetCouncilorReward(..), ProposalDetails::SetCouncilorReward(..)) => true,
        (
            ProposalDetails::SetInitialInvitationBalance(..),
            ProposalDetails::SetInitialInvitationBalance(..),
        ) => true,
        (
            ProposalDetails::SetInitialInvitationCount(..),
            ProposalDetails::SetInitialInvitationCount(..),
        ) => true,
        (
            ProposalDetails::SetMembershipLeadInvitationQuota(..),
            ProposalDetails::SetMembershipLeadInvitationQuota(..),
        ) => true,
        (ProposalDetails::SetReferralCut(..), ProposalDetails::SetReferralCut(..)) => true,
        (ProposalDetails::LockBlogPost(..), ProposalDetails::LockBlogPost(..)) => true,
        (ProposalDetails::UnlockBlogPost(..), ProposalDetails::UnlockBlogPost(..)) => true,
        _ => false,
    }
}

/// The weight of creating a proposal never decreases when its title, its
/// description or a length-measured part of its payload grows.
pub proof fn lemma_create_weight_monotone(
    w: WeightInfo,
    shorter: GeneralProposalParams,
    longer: GeneralProposalParams,
    a: ProposalDetails,
    b: ProposalDetails,
)
    requires
        shorter.title@.len() <= longer.title@.len(),
        shorter.description@.len() <= longer.description@.len(),
        no_longer_payload(a, b),
    ensures
        create_proposal_weight(w, shorter, a) <= create_proposal_weight(w, longer, b),
{
    let t1 = saturated_len(shorter.title@.len()) as int;
    let d1 = saturated_len(shorter.description@.len()) as int;
    let t2 = saturated_len(longer.title@.len()) as int;
    let d2 = saturated_len(longer.description@.len()) as int;
    match (a, b) {
        (ProposalDetails::Signal(x), ProposalDetails::Signal(y)) => {
            let i1 = saturated_len(x@.len()) as int;
            let i2 = saturated_len(y@.len()) as int;
            lemma_formula_monotone(w.create_proposal_signal, i1, t1, d1, 0, i2, t2, d2, 0);
        },
        (ProposalDetails::RuntimeUpgrade(x), ProposalDetails::RuntimeUpgrade(y)) => {
            let i1 = saturated_len(x@.len()) as int;
            let i2 = saturated_len(y@.len()) as int;
            lemma_formula_monotone(w.create_proposal_runtime_upgrade, i1, t1, d1, 0, i2, t2, d2, 0);
        },
        (ProposalDetails::FundingRequest(x), ProposalDetails::FundingRequest(y)) => {
            let i1 = saturated_len(x@.len()) as int;
            let i2 = saturated_len(y@.len()) as int;
            lemma_formula_monotone(w.create_proposal_funding_request, i1, 0, 0, 0, i2, 0, 0, 0);
        },
        (
            ProposalDetails::CreateWorkingGroupLeadOpening(x),
            ProposalDetails::CreateWorkingGroupLeadOpening(y),
        ) => {
            let i1 = saturated_len(x.description@.len()) as int;
            let i2 = saturated_len(y.description@.len()) as int;
            lemma_formula_monotone(
                w.create_proposal_create_working_group_lead_opening,
                i1,
                0,
                0,
                0,
                i2,
                0,
                0,
                0,
            );
        },
        (ProposalDetails::AmendConstitution(x), ProposalDetails::AmendConstitution(y)) => {
            let i1 = saturated_len(x@.len()) as int;
            let i2 = saturated_len(y@.len()) as int;
            lemma_formula_monotone(w.create_proposal_amend_constitution, i1, t1, d1, 0, i2, t2, d2, 0);
        },
        (ProposalDetails::CreateBlogPost(h1, b1), ProposalDetails::CreateBlogPost(h2, b2)) => {
            lemma_formula_monotone(
                w.create_proposal_create_blog_post,
                t1,
                d1,
                saturated_len(h1@.len()) as int,
                saturated_len(b1@.len()) as int,
                t2,
                d2,
                saturated_len(h2@.len()) as int,
                saturated_len(b2@.len()) as int,
            );
        },
        (ProposalDetails::EditBlogPost(_, h1, b1), ProposalDetails::EditBlogPost(_, h2, b2)) => {
            lemma_formula_monotone(
                w.create_proposal_edit_blog_post,
                t1,
                d1,
                saturated_len(optional_len(h1)) as int,
                saturated_len(optional_len(b1)) as int,
                t2,
                d2,
                saturated_len(optional_len(h2)) as int,
                saturated_len(optional_len(b2)) as int,
            );
        },
        (ProposalDetails::SetMaxValidatorCount(..), _) => {
            lemma_formula_monotone(w.create_proposal_set_max_validator_count, d1, 0, 0, 0, d2, 0, 0, 0);
        },
        (ProposalDetails::UpdateWorkingGroupBudget(..), _) => {
            lemma_formula_monotone(
                w.create_proposal_update_working_group_budget,
                d1,
                0,
                0,
                0,
                d2,
                0,
                0,
                0,
            );
        },
        (ProposalDetails::DecreaseWorkingGroupLeadStake(..), _) => {
            lemma_formula_monotone(
                w.create_proposal_decrease_working_group_lead_stake,
                t1,
                d1,
                0,
                0,
                t2,
                d2,
                0,
                0,
            );
        },
        (ProposalDetails::SlashWorkingGroupLead(..), _) => {
            lemma_formula_monotone(w.create_proposal_slash_working_group_lead, t1, d1, 0, 0, t2, d2, 0, 0);
        },
        (ProposalDetails::SetWorkingGroupLeadReward(..), _) => {
            lemma_formula_monotone(
                w.create_proposal_set_working_group_lead_reward,
                d1,
                0,
                0,
                0,
                d2,
                0,
                0,
                0,
            );
        },
        (ProposalDetails::CancelWorkingGroupLeadOpening(..), _) => {
            lemma_formula_monotone(
                w.create_proposal_cancel_working_group_lead_opening,
                t1,
                d1,
                0,
                0,
                t2,
                d2,
                0,
                0,
            );
        },
        (ProposalDetails::SetCouncilorReward(..), _) => {
            lemma_formula_monotone(w.create_proposal_set_councilor_reward, t1, 0, 0, 0, t2, 0, 0, 0);
        },
        (ProposalDetails::SetInitialInvitationBalance(..), _) => {
            lemma_formula_monotone(
                w.create_proposal_set_initial_invitation_balance,
                t1,
                d1,
                0,
                0,
                t2,
                d2,
                0,
                0,
            );
        },
        (ProposalDetails::SetMembershipLeadInvitationQuota(..), _) => {
            lemma_formula_monotone(
                w.create_proposal_set_membership_lead_invitation_quota,
                t1,
                0,
                0,
                0,
                t2,
                0,
                0,
                0,
            );
        },
        (ProposalDetails::SetReferralCut(..), _) => {
            lemma_formula_monotone(w.create_proposal_set_referral_cut, t1, 0, 0, 0, t2, 0, 0, 0);
        },
        (ProposalDetails::LockBlogPost(..), _) => {
            lemma_formula_monotone(w.create_proposal_lock_blog_post, t1, 0, 0, 0, t2, 0, 0, 0);
        },
        _ => {},
    }
}

} // verus!
