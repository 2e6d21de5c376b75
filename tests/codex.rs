use proposals_codex::codex::{check_proposal, Codex};
use proposals_codex::creation::{create_proposal, CreationAction, CreationEvent, CreationStage};
use proposals_codex::parameters::ParameterRegistry;
use proposals_codex::types::{
    BalanceKind, CreateOpeningParameters, Error, FillOpeningParameters, GeneralProposalParams,
    ProposalDetails, ProposalParameters, StakePolicy, TerminateRoleParameters, WorkingGroup,
};

fn params(voting_period: u32) -> ProposalParameters {
    ProposalParameters {
        voting_period,
        grace_period: 0,
        approval_quorum_percentage: 60,
        approval_threshold_percentage: 75,
        slashing_quorum_percentage: 50,
        slashing_threshold_percentage: 50,
        required_stake: Some(100),
        constitutionality: 1,
    }
}

fn registry() -> ParameterRegistry {
    ParameterRegistry {
        signal_proposal_parameters: params(1),
        runtime_upgrade_proposal_parameters: params(2),
        funding_request_proposal_parameters: params(3),
        set_max_validator_count_proposal_parameters: params(4),
        create_working_group_lead_opening_proposal_parameters: params(5),
        fill_working_group_lead_opening_proposal_parameters: params(6),
        update_working_group_budget_proposal_parameters: params(7),
        decrease_working_group_lead_stake_proposal_parameters: params(8),
        slash_working_group_lead_proposal_parameters: params(9),
        set_working_group_lead_reward_proposal_parameters: params(10),
        terminate_working_group_lead_proposal_parameters: params(11),
        amend_constitution_proposal_parameters: params(12),
        cancel_working_group_lead_opening_proposal_parameters: params(13),
        set_membership_price_proposal_parameters: params(14),
        set_council_budget_increment_proposal_parameters: params(15),
        set_councilor_reward_proposal_parameters: params(16),
        set_initial_invitation_balance_proposal_parameters: params(17),
        set_invitation_count_proposal_parameters: params(18),
        set_membership_lead_invitation_quota_proposal_parameters: params(19),
        set_referral_cut_proposal_parameters: params(20),
        create_blog_post_proposal_parameters: params(21),
        edit_blog_post_proposal_parameters: params(22),
        lock_blog_post_proposal_parameters: params(23),
        unlock_blog_post_proposal_parameters: params(24),
    }
}

fn general() -> GeneralProposalParams {
    GeneralProposalParams {
        member_id: 42,
        title: b"title".to_vec(),
        description: b"description".to_vec(),
        staking_account_id: Some(9),
        exact_execution_block: None,
    }
}

#[test]
fn parameters_are_looked_up_by_kind() {
    let r = registry();
    let cases = vec![
        (ProposalDetails::Signal(vec![1]), 1),
        (ProposalDetails::RuntimeUpgrade(vec![1]), 2),
        (ProposalDetails::FundingRequest(vec![]), 3),
        (ProposalDetails::SetMaxValidatorCount(3), 4),
        (
            ProposalDetails::FillWorkingGroupLeadOpening(FillOpeningParameters {
                opening_id: 1,
                successful_application_id: 2,
                working_group: WorkingGroup::Storage,
            }),
            6,
        ),
        (ProposalDetails::UpdateWorkingGroupBudget(1, WorkingGroup::Forum, BalanceKind::Negative), 7),
        (
            ProposalDetails::TerminateWorkingGroupLead(TerminateRoleParameters {
                worker_id: 1,
                slashing_amount: None,
                working_group: WorkingGroup::Content,
            }),
            11,
        ),
        (ProposalDetails::SetInitialInvitationCount(5), 18),
        (ProposalDetails::EditBlogPost(1, None, None), 22),
        (ProposalDetails::UnlockBlogPost(1), 24),
    ];
    for (d, period) in cases {
        assert_eq!(r.get_proposal_parameters(&d), params(period));
    }
}

#[test]
fn check_proposal_gates_on_validation() {
    let r = registry();
    assert_eq!(check_proposal(&r, &ProposalDetails::Signal(vec![1, 2]), 0), Ok(params(1)));
    assert_eq!(
        check_proposal(&r, &ProposalDetails::Signal(vec![]), 0),
        Err(Error::SignalProposalIsEmpty)
    );
}

#[test]
fn removing_twice_changes_nothing_the_second_time() {
    let mut codex = Codex::new();
    codex.record_proposal(1, 10, ProposalDetails::Signal(vec![1]));
    codex.record_proposal(2, 20, ProposalDetails::LockBlogPost(4));
    assert_eq!(codex.proposal_removed(1), Some(10));
    assert_eq!(codex.proposal_removed(1), None);
    assert_eq!(codex.thread_id_by_proposal_id(1), None);
    assert_eq!(codex.thread_id_by_proposal_id(2), Some(20));
    assert_eq!(codex.proposal_details(2), Some(&ProposalDetails::LockBlogPost(4)));
}

#[test]
fn removing_unknown_proposal_is_a_no_op() {
    let mut codex = Codex::new();
    assert_eq!(codex.proposal_removed(7), None);
    assert_eq!(codex.thread_id_by_proposal_id(7), None);
}

#[test]
fn signal_proposal_created_and_removed() {
    let r = registry();
    let details = ProposalDetails::Signal(b"signal".to_vec());
    let mut codex = Codex::new();
    let mut creation = create_proposal(&r, &general(), details.clone(), 0).unwrap();
    assert_eq!(creation.next_action(), CreationAction::ResolveOrigin { member_id: 42 });
    let mut threads_opened = 0;
    let mut action = creation.on_event(&mut codex, CreationEvent::OriginResolved(500));
    loop {
        let event = match action {
            CreationAction::ValidateAdmission { parameters } => {
                assert_eq!(parameters, params(1));
                CreationEvent::AdmissionValid
            }
            CreationAction::CheckThreadAllowed => CreationEvent::ThreadAllowed,
            CreationAction::Admit { account_id, proposer_id, parameters } => {
                assert_eq!((account_id, proposer_id, parameters), (500, 42, params(1)));
                assert_eq!(codex.thread_id_by_proposal_id(77), None);
                CreationEvent::Admitted(77)
            }
            CreationAction::OpenThread { author } => {
                assert_eq!(author, 42);
                threads_opened += 1;
                CreationEvent::ThreadOpened(5)
            }
            CreationAction::Finish { .. } | CreationAction::Abort => break,
            CreationAction::ResolveOrigin { .. } => panic!("origin asked twice"),
        };
        action = creation.on_event(&mut codex, event);
    }
    assert_eq!(action, CreationAction::Finish { proposal_id: 77, thread_id: 5 });
    assert_eq!(threads_opened, 1);
    assert_eq!(codex.thread_id_by_proposal_id(77), Some(5));
    assert_eq!(codex.proposal_details(77), Some(&details));

    assert_eq!(codex.proposal_removed(77), Some(5));
    assert_eq!(codex.thread_id_by_proposal_id(77), None);
    assert_eq!(codex.proposal_details(77), None);
}

#[test]
fn invalid_proposal_is_not_started() {
    let r = registry();
    let result = create_proposal(&r, &general(), ProposalDetails::RuntimeUpgrade(vec![]), 0);
    assert!(matches!(result, Err(Error::RuntimeProposalIsEmpty)));
}

#[test]
fn failed_admission_aborts_without_record_or_thread() {
    let r = registry();
    let mut codex = Codex::new();
    let mut creation = create_proposal(&r, &general(), ProposalDetails::SetMembershipPrice(5), 0).unwrap();
    creation.on_event(&mut codex, CreationEvent::OriginResolved(500));
    let action = creation.on_event(&mut codex, CreationEvent::Failed);
    assert_eq!(action, CreationAction::Abort);
    assert_eq!(creation.stage, CreationStage::Aborted);
    let action = creation.on_event(&mut codex, CreationEvent::ThreadOpened(3));
    assert_eq!(action, CreationAction::Abort);
    assert_eq!(codex.thread_id_by_proposal_id(0), None);
}

#[test]
fn event_out_of_turn_repeats_the_pending_step() {
    let r = registry();
    let mut codex = Codex::new();
    let mut creation = create_proposal(&r, &general(), ProposalDetails::LockBlogPost(1), 0).unwrap();
    let action = creation.on_event(&mut codex, CreationEvent::Admitted(3));
    assert_eq!(action, CreationAction::ResolveOrigin { member_id: 42 });
    assert_eq!(creation.stage, CreationStage::ResolvingOrigin);
}

#[test]
fn every_kind_has_its_own_parameters() {
    let r = registry();
    let all = vec![
        ProposalDetails::Signal(vec![1]),
        ProposalDetails::RuntimeUpgrade(vec![1]),
        ProposalDetails::FundingRequest(vec![]),
        ProposalDetails::SetMaxValidatorCount(3),
        ProposalDetails::CreateWorkingGroupLeadOpening(CreateOpeningParameters {
            description: vec![1, 2],
            stake_policy: Some(StakePolicy { stake_amount: 10, leaving_unstaking_period: 5 }),
            reward_per_block: None,
            working_group: WorkingGroup::Forum,
        }),
        ProposalDetails::FillWorkingGroupLeadOpening(FillOpeningParameters {
            opening_id: 1,
            successful_application_id: 2,
            working_group: WorkingGroup::Storage,
        }),
        ProposalDetails::UpdateWorkingGroupBudget(1, WorkingGroup::Forum, BalanceKind::Negative),
        ProposalDetails::DecreaseWorkingGroupLeadStake(1, 2, WorkingGroup::Content),
        ProposalDetails::SlashWorkingGroupLead(1, 2, WorkingGroup::Content),
        ProposalDetails::SetWorkingGroupLeadReward(1, Some(3), WorkingGroup::Membership),
        ProposalDetails::TerminateWorkingGroupLead(TerminateRoleParameters {
            worker_id: 1,
            slashing_amount: None,
            working_group: WorkingGroup::Content,
        }),
        ProposalDetails::AmendConstitution(vec![1]),
        ProposalDetails::CancelWorkingGroupLeadOpening(1, WorkingGroup::Forum),
        ProposalDetails::SetMembershipPrice(5),
        ProposalDetails::SetCouncilBudgetIncrement(5),
        ProposalDetails::SetCouncilorReward(5),
        ProposalDetails::SetInitialInvitationBalance(5),
        ProposalDetails::SetInitialInvitationCount(5),
        ProposalDetails::SetMembershipLeadInvitationQuota(5),
        ProposalDetails::SetReferralCut(5),
        ProposalDetails::CreateBlogPost(vec![1], vec![2]),
        ProposalDetails::EditBlogPost(1, None, None),
        ProposalDetails::LockBlogPost(1),
        ProposalDetails::UnlockBlogPost(1),
    ];
    assert_eq!(all.len(), 24);
    for (i, d) in all.iter().enumerate() {
        assert_eq!(r.get_proposal_parameters(d), params(i as u32 + 1));
    }
}
