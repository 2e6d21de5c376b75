use vstd::prelude::*;

verus! {

/// Organizational units that own a budget and a leadership role.
#[derive(Clone, Copy, Debug, PartialEq, Eq, Structural)]
pub enum WorkingGroup {
    Forum,
    Storage,
    Content,
    Membership,
}

/// Direction of a budget transfer between the council and a working group.
#[derive(Clone, Copy, Debug, PartialEq, Eq, Structural)]
pub enum BalanceKind {
    /// From the council to the working group.
    Positive,
    /// From the working group back to the council.
    Negative,
}

/// Who is calling a privileged operation.
#[derive(Clone, Copy, Debug, PartialEq, Eq, Structural)]
pub enum Origin {
    Root,
    Signed(u64),
    Unsigned,
}

/// One recipient of a funding request.
#[derive(Clone, Copy, Debug, PartialEq, Eq, Structural)]
pub struct FundingRequestParameters {
    pub account: u64,
    pub amount: u128,
}

/// Stake required from applicants of a lead opening.
#[derive(Clone, Copy, Debug, PartialEq, Eq, Structural)]
pub struct StakePolicy {
    pub stake_amount: u128,
    pub leaving_unstaking_period: u32,
}

/// Parameters of a 'Create Working Group Lead Opening' proposal.
#[derive(Clone, Debug, PartialEq, Eq)]
pub struct CreateOpeningParameters {
    pub description: Vec<u8>,
    pub stake_policy: Option<StakePolicy>,
    pub reward_per_block: Option<u128>,
    pub working_group: WorkingGroup,
}

/// Parameters of a 'Fill Working Group Lead Opening' proposal.
#[derive(Clone, Copy, Debug, PartialEq, Eq, Structural)]
pub struct FillOpeningParameters {
    pub opening_id: u64,
    pub successful_application_id: u64,
    pub working_group: WorkingGroup,
}

/// Parameters of a 'Terminate Working Group Lead' proposal.
#[derive(Clone, Copy, Debug, PartialEq, Eq, Structural)]
pub struct TerminateRoleParameters {
    pub worker_id: u64,
    pub slashing_amount: Option<u128>,
    pub working_group: WorkingGroup,
}

/// The closed catalogue of proposals, each with its own payload.
#[derive(Clone, Debug, PartialEq, Eq)]
pub enum ProposalDetails {
    /// Free-form signal text.
    Signal(Vec<u8>),
    /// New runtime code.
    RuntimeUpgrade(Vec<u8>),
    /// Payments to a list of accounts.
    FundingRequest(Vec<FundingRequestParameters>),
    /// New maximum validator count.
    SetMaxValidatorCount(u32),
    CreateWorkingGroupLeadOpening(CreateOpeningParameters),
    FillWorkingGroupLeadOpening(FillOpeningParameters),
    /// Amount, group and direction of a budget transfer.
    UpdateWorkingGroupBudget(u128, WorkingGroup, BalanceKind),
    /// Lead worker, amount to decrease the stake by, group.
    DecreaseWorkingGroupLeadStake(u64, u128, WorkingGroup),
    /// Lead worker, amount to slash, group.
    SlashWorkingGroupLead(u64, u128, WorkingGroup),
    /// Lead worker, new reward per block, group.
    SetWorkingGroupLeadReward(u64, Option<u128>, WorkingGroup),
    TerminateWorkingGroupLead(TerminateRoleParameters),
    /// New constitution text.
    AmendConstitution(Vec<u8>),
    /// Opening and group.
    CancelWorkingGroupLeadOpening(u64, WorkingGroup),
    SetMembershipPrice(u128),
    SetCouncilBudgetIncrement(u128),
    SetCouncilorReward(u128),
    SetInitialInvitationBalance(u128),
    SetInitialInvitationCount(u32),
    SetMembershipLeadInvitationQuota(u32),
    /// Referral cut in percent.
    SetReferralCut(u8),
    /// Header and body of a new blog post.
    CreateBlogPost(Vec<u8>, Vec<u8>),
    /// Post, new header if any, new body if any.
    EditBlogPost(u64, Option<Vec<u8>>, Option<Vec<u8>>),
    LockBlogPost(u64),
    UnlockBlogPost(u64),
}

/// Metadata shared by every proposal, whatever its kind.
#[derive(Clone, Debug, PartialEq, Eq)]
pub struct GeneralProposalParams {
    pub member_id: u64,
    pub title: Vec<u8>,
    pub description: Vec<u8>,
    pub staking_account_id: Option<u64>,
    pub exact_execution_block: Option<u32>,
}

/// Voting and execution parameters of one kind of proposal.
#[derive(Clone, Copy, Debug, PartialEq, Eq, Structural)]
pub struct ProposalParameters {
    pub voting_period: u32,
    pub grace_period: u32,
    pub approval_quorum_percentage: u32,
    pub approval_threshold_percentage: u32,
    pub slashing_quorum_percentage: u32,
    pub slashing_threshold_percentage: u32,
    pub required_stake: Option<u128>,
    pub constitutionality: u32,
}

/// Errors of the codex.
#[derive(Clone, Copy, Debug, PartialEq, Eq, Structural)]
pub enum Error {
    /// Provided text for a signal proposal is empty.
    SignalProposalIsEmpty,
    /// Provided code for a runtime upgrade proposal is empty.
    RuntimeProposalIsEmpty,
    /// Invalid amount in a funding request.
    InvalidFundingRequestProposalBalance,
    /// Invalid validator count for a 'Set Max Validator Count' proposal.
    InvalidValidatorCount,
    /// The operation needs the root origin.
    RequireRootOrigin,
    /// A 'Decrease Working Group Lead Stake' proposal decreases by zero.
    DecreasingStakeIsZero,
    /// The source of a budget transfer holds less than the amount.
    InsufficientFundsForBudgetUpdate,
    /// A funding request has no recipient or too many.
    InvalidFundingRequestProposalNumberOfAccount,
    /// A funding request names an account twice.
    InvalidFundingRequestProposalRepeatedAccount,
}

} // verus!
