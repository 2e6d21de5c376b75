//! Payload checks that every proposal passes before it is admitted.
use std::collections::BTreeSet;
use vstd::prelude::*;

use crate::types::{Error, FundingRequestParameters, ProposalDetails};

verus! {

broadcast use {vstd::std_specs::btree::group_btree_axioms, vstd::laws_cmp::group_laws_cmp};

/// Largest amount that one funding request may pay to one account.
pub const MAX_SPENDING_PROPOSAL_VALUE: u128 = 5_000_000;

/// Largest validator count that a proposal may set.
pub const MAX_VALIDATOR_COUNT: u32 = 100;

/// Largest number of accounts that one funding request may pay.
pub const MAX_FUNDING_REQUEST_ACCOUNTS: usize = 100;

/// The account of entry `i` already occurs among the entries before it.
pub open spec fn account_seen_before(s: Seq<FundingRequestParameters>, i: int) -> bool {
    exists|j: int| 0 <= j < i && #[trigger] s[j].account == s[i].account
}

/// A single payment is positive and within the per-request ceiling.
pub open spec fn amount_in_range(amount: u128) -> bool {
    0 < amount <= MAX_SPENDING_PROPOSAL_VALUE
}

/// Outcome of checking the entries from `i` on, in order: the first entry that
/// repeats an earlier account or has an amount out of range decides the error.
pub open spec fn funding_entries_check(s: Seq<FundingRequestParameters>, i: nat) -> Result<(), Error>
    decreases s.len() - i,
{
    if i >= s.len() {
        Ok(())
    } else if account_seen_before(s, i as int) {
        Err(Error::InvalidFundingRequestProposalRepeatedAccount)
    } else if !amount_in_range(s[i as int].amount) {
        Err(Error::InvalidFundingRequestProposalBalance)
    } else {
        funding_entries_check(s, i + 1)
    }
}

/// Outcome of checking a funding request: between one and the maximum number
/// of entries, then the entries in order.
pub open spec fn funding_request_check(s: Seq<FundingRequestParameters>) -> Result<(), Error> {
    if s.len() == 0 || s.len() > MAX_FUNDING_REQUEST_ACCOUNTS {
        Err(Error::InvalidFundingRequestProposalNumberOfAccount)
    } else {
        funding_entries_check(s, 0)
    }
}

/// Outcome of checking a proposal's payload, given the staking subsystem's
/// current minimum validator count.
pub open spec fn details_check(details: ProposalDetails, min_validator_count: u32) -> Result<
    (),
    Error,
> {
    match details {
        ProposalDetails::Signal(signal) => if signal@.len() == 0 {
            Err(Error::SignalProposalIsEmpty)
        } else {
            Ok(())
        },
        ProposalDetails::RuntimeUpgrade(blob) => if blob@.len() == 0 {
            Err(Error::RuntimeProposalIsEmpty)
        } else {
            Ok(())
        },
        ProposalDetails::FundingRequest(requests) => funding_request_check(requests@),
        ProposalDetails::SetMaxValidatorCount(count) => if min_validator_count <= count
            <= MAX_VALIDATOR_COUNT {
            Ok(())
        } else {
            Err(Error::InvalidValidatorCount)
        },
        ProposalDetails::DecreaseWorkingGroupLeadStake(_, stake_amount, _) => if stake_amount
            == 0 {
            Err(Error::DecreasingStakeIsZero)
        } else {
            Ok(())
        },
        ProposalDetails::CreateWorkingGroupLeadOpening(..) => Ok(()),
        ProposalDetails::FillWorkingGroupLeadOpening(..) => Ok(()),
        ProposalDetails::UpdateWorkingGroupBudget(..) => Ok(()),
        ProposalDetails::SlashWorkingGroupLead(..) => Ok(()),
        ProposalDetails::SetWorkingGroupLeadReward(..) => Ok(()),
        ProposalDetails::TerminateWorkingGroupLead(..) => Ok(()),
        ProposalDetails::AmendConstitution(..) => Ok(()),
        ProposalDetails::CancelWorkingGroupLeadOpening(..) => Ok(()),
        ProposalDetails::SetMembershipPrice(..) => Ok(()),
        ProposalDetails::SetCouncilBudgetIncrement(..) => Ok(()),
        ProposalDetails::SetCouncilorReward(..) => Ok(()),
        ProposalDetails::SetInitialInvitationBalance(..) => Ok(()),
        ProposalDetails::SetInitialInvitationCount(..) => Ok(()),
        ProposalDetails::SetMembershipLeadInvitationQuota(..) => Ok(()),
        ProposalDetails::SetReferralCut(..) => Ok(()),
        ProposalDetails::CreateBlogPost(..) => Ok(()),
        ProposalDetails::EditBlogPost(..) => Ok(()),
        ProposalDetails::LockBlogPost(..) => Ok(()),
        ProposalDetails::UnlockBlogPost(..) => Ok(()),
    }
}

fn ensure_funding_request_checks(requests: &Vec<FundingRequestParameters>) -> (r: Result<
    (),
    Error,
>)
    ensures
        r == funding_request_check(requests@),
{
    if requests.len() == 0 || requests.len() > MAX_FUNDING_REQUEST_ACCOUNTS {
        return Err(Error::InvalidFundingRequestProposalNumberOfAccount);
    }
    let ghost s = requests@;
    let mut visited_accounts: BTreeSet<u64> = BTreeSet::new();
    let mut i: usize = 0;
    while i < requests.len()
        invariant
            s == requests@,
            0 < s.len() <= MAX_FUNDING_REQUEST_ACCOUNTS,
            0 <= i <= s.len(),
            funding_entries_check(s, 0) == funding_entries_check(s, i as nat),
            forall|a: u64|
                visited_accounts@.contains(a) <==> exists|j: int|
                    0 <= j < i && #[trigger] s[j].account == a,
        decreases s.len() - i,
    {
        let request = requests[i];
        if visited_accounts.contains(&request.account) {
            assert(account_seen_before(s, i as int));
            return Err(Error::InvalidFundingRequestProposalRepeatedAccount);
        }
        if request.amount == 0 || request.amount > MAX_SPENDING_PROPOSAL_VALUE {
            return Err(Error::InvalidFundingRequestProposalBalance);
        }
        visited_accounts.insert(request.account);
        proof {
            assert forall|a: u64|
                visited_accounts@.contains(a) <==> exists|j: int|
                    0 <= j < i + 1 && #[trigger] s[j].account == a by {
                if a == request.account {
                    assert(s[i as int].account == a);
                }
            }
        }
        i = i + 1;
    }
    Ok(())
}

/// Checks a proposal's payload against the rules of its kind. Only the
/// validator-count rule reads outside state: the staking subsystem's current
/// minimum, which the caller passes in.
pub fn ensure_details_checks(details: &ProposalDetails, min_validator_count: u32) -> (r: Result<
    (),
    Error,
>)
    ensures
        r == details_check(*details, min_validator_count),
{
    match details {
        ProposalDetails::Signal(signal) => {
            if signal.len() == 0 {
                return Err(Error::SignalProposalIsEmpty);
            }
        },
        ProposalDetails::RuntimeUpgrade(blob) => {
            if blob.len() == 0 {
                return Err(Error::RuntimeProposalIsEmpty);
            }
        },
        ProposalDetails::FundingRequest(requests) => {
            return ensure_funding_request_checks(requests);
        },
        ProposalDetails::SetMaxValidatorCount(new_validator_count) => {
            if *new_validator_count < min_validator_count {
                return Err(Error::InvalidValidatorCount);
            }
            if *new_validator_count > MAX_VALIDATOR_COUNT {
                return Err(Error::InvalidValidatorCount);
            }
        },
        ProposalDetails::CreateWorkingGroupLeadOpening(..) => {},
        ProposalDetails::FillWorkingGroupLeadOpening(..) => {},
        ProposalDetails::UpdateWorkingGroupBudget(..) => {},
        ProposalDetails::DecreaseWorkingGroupLeadStake(_, stake_amount, _) => {
            if *stake_amount == 0 {
                return Err(Error::DecreasingStakeIsZero);
            }
        },
        ProposalDetails::SlashWorkingGroupLead(..) => {},
        ProposalDetails::SetWorkingGroupLeadReward(..) => {},
        ProposalDetails::TerminateWorkingGroupLead(..) => {},
        ProposalDetails::AmendConstitution(..) => {},
        ProposalDetails::CancelWorkingGroupLeadOpening(..) => {},
        ProposalDetails::SetMembershipPrice(..) => {},
        ProposalDetails::SetCouncilBudgetIncrement(..) => {},
        ProposalDetails::SetCouncilorReward(..) => {},
        ProposalDetails::SetInitialInvitationBalance(..) => {},
        ProposalDetails::SetInitialInvitationCount(..) => {},
        ProposalDetails::SetMembershipLeadInvitationQuota(..) => {},
        ProposalDetails::SetReferralCut(..) => {},
        ProposalDetails::CreateBlogPost(..) => {},
        ProposalDetails::EditBlogPost(..) => {},
        ProposalDetails::LockBlogPost(..) => {},
        ProposalDetails::UnlockBlogPost(..) => {},
    }
    Ok(())
}

proof fn lemma_entries_rejected_up_to(s: Seq<FundingRequestParameters>, k: nat, i: int, j: int)
    requires
        0 <= i < j < s.len(),
        s[i].account == s[j].account,
        k <= j,
    ensures
        funding_entries_check(s, k) is Err,
    decreases j - k,
{
    if k < j {
        lemma_entries_rejected_up_to(s, k + 1, i, j);
    } else {
        assert(s[i].account == s[k as int].account);
    }
}

proof fn lemma_entries_accepted_from(s: Seq<FundingRequestParameters>, k: nat)
    requires
        forall|i: int, j: int| 0 <= i < j < s.len() ==> s[i].account != s[j].account,
        forall|i: int| 0 <= i < s.len() ==> amount_in_range(#[trigger] s[i].amount),
    ensures
        funding_entries_check(s, k) == Ok::<(), Error>(()),
    decreases s.len() - k,
{
    if k < s.len() {
        lemma_entries_accepted_from(s, k + 1);
    }
}

/// A funding request that names some account twice is rejected, whatever the
/// amounts.
pub proof fn lemma_repeated_account_rejected(s: Seq<FundingRequestParameters>, i: int, j: int)
    requires
        0 <= i < j < s.len(),
        s[i].account == s[j].account,
    ensures
        funding_request_check(s) is Err,
{
    lemma_entries_rejected_up_to(s, 0, i, j);
}

/// A funding request with more entries than the maximum is rejected.
pub proof fn lemma_too_many_accounts_rejected(s: Seq<FundingRequestParameters>)
    requires
        s.len() > MAX_FUNDING_REQUEST_ACCOUNTS,
    ensures
        funding_request_check(s) == Err::<(), Error>(
            Error::InvalidFundingRequestProposalNumberOfAccount,
        ),
{
}

/// A funding request with between one and the maximum number of entries, all
/// accounts distinct and every amount positive and within the ceiling, is
/// accepted.
pub proof fn lemma_distinct_accounts_accepted(s: Seq<FundingRequestParameters>)
    requires
        0 < s.len() <= MAX_FUNDING_REQUEST_ACCOUNTS,
        forall|i: int, j: int| 0 <= i < j < s.len() ==> s[i].account != s[j].account,
        forall|i: int| 0 <= i < s.len() ==> amount_in_range(#[trigger] s[i].amount),
    ensures
        funding_request_check(s) == Ok::<(), Error>(()),
{
    lemma_entries_accepted_from(s, 0);
}

/// The validator count of a proposal may equal the configured minimum and the
/// fixed ceiling, and may lie neither below the one nor above the other.
pub proof fn lemma_validator_count_bounds(min_validator_count: u32)
    ensures
        min_validator_count <= MAX_VALIDATOR_COUNT ==> details_check(
            ProposalDetails::SetMaxValidatorCount(min_validator_count),
            min_validator_count,
        ) == Ok::<(), Error>(()),
        min_validator_count <= MAX_VALIDATOR_COUNT ==> details_check(
            ProposalDetails::SetMaxValidatorCount(MAX_VALIDATOR_COUNT),
            min_validator_count,
        ) == Ok::<(), Error>(()),
        min_validator_count > 0 ==> details_check(
            ProposalDetails::SetMaxValidatorCount((min_validator_count - 1) as u32),
            min_validator_count,
        ) == Err::<(), Error>(Error::InvalidValidatorCount),
        details_check(
            ProposalDetails::SetMaxValidatorCount((MAX_VALIDATOR_COUNT + 1) as u32),
            min_validator_count,
        ) == Err::<(), Error>(Error::InvalidValidatorCount),
{
}

/// A signal or a runtime upgrade is rejected exactly when its payload is
/// empty; any other payload passes.
pub proof fn lemma_empty_payload_rejected(payload: Vec<u8>, min_validator_count: u32)
    ensures
        details_check(ProposalDetails::Signal(payload), min_validator_count) == if payload@.len()
            == 0 {
            Err::<(), Error>(Error::SignalProposalIsEmpty)
        } else {
            Ok(())
        },
        details_check(ProposalDetails::RuntimeUpgrade(payload), min_validator_count) == if payload@.len()
            == 0 {
            Err::<(), Error>(Error::RuntimeProposalIsEmpty)
        } else {
            Ok(())
        },
{
}

} // verus!
