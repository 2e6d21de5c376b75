use proposals_codex::types::{
    BalanceKind, CreateOpeningParameters, FillOpeningParameters, FundingRequestParameters,
    GeneralProposalParams, ProposalDetails, StakePolicy, TerminateRoleParameters, WorkingGroup,
};
use proposals_codex::weights::{WeightFormula, WeightInfo};

fn f(base: u64, a: u64, b: u64, c: u64, d: u64) -> WeightFormula {
    WeightFormula { base, per_first: a, per_second: b, per_third: c, per_fourth: d }
}

fn weights() -> WeightInfo {
    let k = WeightFormula::constant;
    WeightInfo {
        execute_signal_proposal: f(10, 2, 0, 0, 0),
        create_proposal_signal: f(1000, 3, 5, 7, 0),
        create_proposal_runtime_upgrade: f(2000, 1, 1, 1, 0),
        create_proposal_funding_request: f(3000, 100, 0, 0, 0),
        create_proposal_set_max_validator_count: f(4000, 2, 0, 0, 0),
        create_proposal_create_working_group_lead_opening: f(5000, 4, 0, 0, 0),
        create_proposal_fill_working_group_lead_opening: k(6000),
        create_proposal_update_working_group_budget: f(7000, 1, 0, 0, 0),
        create_proposal_decrease_working_group_lead_stake: f(8000, 1, 2, 0, 0),
        create_proposal_slash_working_group_lead: f(9000, 1, 2, 0, 0),
        create_proposal_set_working_group_lead_reward: f(10000, 1, 0, 0, 0),
        create_proposal_terminate_working_group_lead: k(11000),
        create_proposal_amend_constitution: f(12000, 1, 1, 1, 0),
        create_proposal_cancel_working_group_lead_opening: f(13000, 1, 1, 0, 0),
        create_proposal_set_membership_price: k(14000),
        create_proposal_set_council_budget_increment: k(15000),
        create_proposal_set_councilor_reward: f(16000, 1, 0, 0, 0),
        create_proposal_set_initial_invitation_balance: f(17000, 1, 1, 0, 0),
        create_proposal_set_initial_invitation_count: k(18000),
        create_proposal_set_membership_lead_invitation_quota: f(19000, 1, 0, 0, 0),
        create_proposal_set_referral_cut: f(20000, 1, 0, 0, 0),
        create_proposal_create_blog_post: f(21000, 1, 10, 100, 1000),
        create_proposal_edit_blog_post: f(22000, 1, 10, 100, 1000),
        create_proposal_lock_blog_post: f(23000, 1, 0, 0, 0),
        create_proposal_unlock_blog_post: k(24000),
        update_working_group_budget_positive_forum: k(1),
        update_working_group_budget_negative_forum: k(2),
        update_working_group_budget_positive_storage: k(3),
        update_working_group_budget_negative_storage: k(4),
        update_working_group_budget_positive_content: k(5),
        update_working_group_budget_negative_content: k(6),
        update_working_group_budget_positive_membership: k(7),
        update_working_group_budget_negative_membership: k(8),
    }
}

fn general(title: &[u8], description: &[u8]) -> GeneralProposalParams {
    GeneralProposalParams {
        member_id: 1,
        title: title.to_vec(),
        description: description.to_vec(),
        staking_account_id: None,
        exact_execution_block: None,
    }
}

#[test]
fn signal_weight_counts_payload_title_and_description() {
    let w = weights();
    let g = general(b"ab", b"abc");
    let d = ProposalDetails::Signal(b"abcd".to_vec());
    assert_eq!(w.get_create_proposal_weight(&g, &d), 1000 + 3 * 4 + 5 * 2 + 7 * 3);
}

#[test]
fn funding_request_weight_counts_entries() {
    let w = weights();
    let g = general(b"title", b"description");
    let v = vec![
        FundingRequestParameters { account: 1, amount: 1 },
        FundingRequestParameters { account: 2, amount: 1 },
    ];
    assert_eq!(w.get_create_proposal_weight(&g, &ProposalDetails::FundingRequest(v)), 3200);
}

#[test]
fn edit_blog_post_weight_counts_absent_parts_as_empty() {
    let w = weights();
    let g = general(b"t", b"dd");
    let d = ProposalDetails::EditBlogPost(5, Some(b"hhh".to_vec()), None);
    assert_eq!(w.get_create_proposal_weight(&g, &d), 22000 + 1 + 20 + 300);
    let d = ProposalDetails::CreateBlogPost(b"h".to_vec(), b"bb".to_vec());
    assert_eq!(w.get_create_proposal_weight(&g, &d), 21000 + 1 + 20 + 100 + 2000);
}

#[test]
fn weight_of_invalid_payload_is_defined() {
    let w = weights();
    let g = general(b"", b"");
    assert_eq!(w.get_create_proposal_weight(&g, &ProposalDetails::Signal(vec![])), 1000);
    assert_eq!(w.get_create_proposal_weight(&g, &ProposalDetails::UnlockBlogPost(1)), 24000);
}

#[test]
fn weight_saturates() {
    let big = WeightFormula { base: u64::MAX - 1, per_first: 5, per_second: 0, per_third: 0, per_fourth: 0 };
    assert_eq!(big.weight(1, 0, 0, 0), u64::MAX);
    assert_eq!(big.weight(0, 0, 0, 0), u64::MAX - 1);
    let steep = WeightFormula { base: 0, per_first: u64::MAX, per_second: 0, per_third: 0, per_fourth: 0 };
    assert_eq!(steep.weight(2, 0, 0, 0), u64::MAX);
}

#[test]
fn weight_grows_with_title() {
    let w = weights();
    let d = ProposalDetails::LockBlogPost(1);
    let short = w.get_create_proposal_weight(&general(b"a", b""), &d);
    let long = w.get_create_proposal_weight(&general(b"abcdef", b""), &d);
    assert!(short < long);
}

#[test]
fn budget_update_weight_by_group_and_kind() {
    let w = weights();
    assert_eq!(w.get_update_working_group_budget_weight(&WorkingGroup::Forum, &BalanceKind::Positive), 1);
    assert_eq!(w.get_update_working_group_budget_weight(&WorkingGroup::Content, &BalanceKind::Negative), 6);
    assert_eq!(w.get_update_working_group_budget_weight(&WorkingGroup::Membership, &BalanceKind::Negative), 8);
}

#[test]
fn execute_signal_weight_counts_signal() {
    assert_eq!(weights().get_execute_signal_proposal_weight(&b"abc".to_vec()), 16);
}

#[test]
fn every_kind_is_weighed_by_its_own_formula() {
    let w = weights();
    let g = general(b"", b"");
    let all = vec![
        ProposalDetails::Signal(vec![1]),
        ProposalDetails::RuntimeUpgrade(vec![1]),
        ProposalDetails::FundingRequest(vec![]),
        ProposalDetails::SetMaxValidatorCount(3),
        ProposalDetails::CreateWorkingGroupLeadOpening(CreateOpeningParameters {
            description: vec![1, 2],
            stake_policy: Some(StakePolicy { stake_amount: 10, leaving_unstaking_period: 5 }),
            reward_per_block: None,
            working_group: WorkingGroup::Forum,
        }),
        ProposalDetails::FillWorkingGroupLeadOpening(FillOpeningParameters {
            opening_id: 1,
            successful_application_id: 2,
            working_group: WorkingGroup::Storage,
        }),
        ProposalDetails::UpdateWorkingGroupBudget(1, WorkingGroup::Forum, BalanceKind::Negative),
        ProposalDetails::DecreaseWorkingGroupLeadStake(1, 2, WorkingGroup::Content),
        ProposalDetails::SlashWorkingGroupLead(1, 2, WorkingGroup::Content),
        ProposalDetails::SetWorkingGroupLeadReward(1, Some(3), WorkingGroup::Membership),
        ProposalDetails::TerminateWorkingGroupLead(TerminateRoleParameters {
            worker_id: 1,
            slashing_amount: None,
            working_group: WorkingGroup::Content,
        }),
        ProposalDetails::AmendConstitution(vec![1]),
        ProposalDetails::CancelWorkingGroupLeadOpening(1, WorkingGroup::Forum),
        ProposalDetails::SetMembershipPrice(5),
        ProposalDetails::SetCouncilBudgetIncrement(5),
        ProposalDetails::SetCouncilorReward(5),
        ProposalDetails::SetInitialInvitationBalance(5),
        ProposalDetails::SetInitialInvitationCount(5),
        ProposalDetails::SetMembershipLeadInvitationQuota(5),
        ProposalDetails::SetReferralCut(5),
        ProposalDetails::CreateBlogPost(vec![1], vec![2]),
        ProposalDetails::EditBlogPost(1, None, None),
        ProposalDetails::LockBlogPost(1),
        ProposalDetails::UnlockBlogPost(1),
    ];
    let expected: Vec<u64> = vec![
        1003, 2001, 3000, 4000, 5008, 6000, 7000, 8000, 9000, 10000, 11000, 12001, 13000, 14000,
        15000, 16000, 17000, 18000, 19000, 20000, 21000 + 100 + 1000, 22000, 23000, 24000,
    ];
    let got: Vec<u64> = all.iter().map(|d| w.get_create_proposal_weight(&g, d)).collect();
    assert_eq!(got, expected);
}
