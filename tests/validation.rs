use proposals_codex::types::{Error, FundingRequestParameters, ProposalDetails, WorkingGroup};
use proposals_codex::validation::ensure_details_checks;

fn requests(n: u64, amount: u128) -> Vec<FundingRequestParameters> {
    (0..n).map(|i| FundingRequestParameters { account: i, amount }).collect()
}

fn funding(v: Vec<FundingRequestParameters>) -> Result<(), Error> {
    ensure_details_checks(&ProposalDetails::FundingRequest(v), 0)
}

#[test]
fn funding_request_with_repeated_account_is_rejected() {
    let mut v = requests(3, 10);
    v.push(FundingRequestParameters { account: 1, amount: 10 });
    assert_eq!(funding(v), Err(Error::InvalidFundingRequestProposalRepeatedAccount));
}

#[test]
fn repeated_account_rejected_whatever_the_amounts() {
    let v = vec![
        FundingRequestParameters { account: 7, amount: 1 },
        FundingRequestParameters { account: 7, amount: 0 },
    ];
    assert_eq!(funding(v), Err(Error::InvalidFundingRequestProposalRepeatedAccount));
    let v = vec![
        FundingRequestParameters { account: 7, amount: 0 },
        FundingRequestParameters { account: 7, amount: 1 },
    ];
    assert!(funding(v).is_err());
}

#[test]
fn funding_request_of_101_accounts_is_rejected() {
    assert_eq!(
        funding(requests(101, 1)),
        Err(Error::InvalidFundingRequestProposalNumberOfAccount)
    );
}

#[test]
fn funding_request_of_100_distinct_accounts_is_accepted() {
    assert_eq!(funding(requests(100, 5_000_000)), Ok(()));
    assert_eq!(funding(requests(100, 1)), Ok(()));
}

#[test]
fn empty_funding_request_is_rejected() {
    assert_eq!(funding(vec![]), Err(Error::InvalidFundingRequestProposalNumberOfAccount));
}

#[test]
fn funding_request_amount_bounds() {
    assert_eq!(funding(requests(1, 0)), Err(Error::InvalidFundingRequestProposalBalance));
    assert_eq!(funding(requests(1, 5_000_001)), Err(Error::InvalidFundingRequestProposalBalance));
    assert_eq!(funding(requests(1, 5_000_000)), Ok(()));
}

#[test]
fn validator_count_bounds() {
    let check = |count: u32, min: u32| {
        ensure_details_checks(&ProposalDetails::SetMaxValidatorCount(count), min)
    };
    assert_eq!(check(4, 4), Ok(()));
    assert_eq!(check(3, 4), Err(Error::InvalidValidatorCount));
    assert_eq!(check(100, 4), Ok(()));
    assert_eq!(check(101, 4), Err(Error::InvalidValidatorCount));
}

#[test]
fn empty_signal_and_runtime_are_rejected() {
    assert_eq!(
        ensure_details_checks(&ProposalDetails::Signal(vec![]), 0),
        Err(Error::SignalProposalIsEmpty)
    );
    assert_eq!(
        ensure_details_checks(&ProposalDetails::RuntimeUpgrade(vec![]), 0),
        Err(Error::RuntimeProposalIsEmpty)
    );
    assert_eq!(ensure_details_checks(&ProposalDetails::Signal(b"x".to_vec()), 0), Ok(()));
    assert_eq!(ensure_details_checks(&ProposalDetails::RuntimeUpgrade(vec![0]), 0), Ok(()));
}

#[test]
fn decreasing_stake_by_zero_is_rejected() {
    assert_eq!(
        ensure_details_checks(
            &ProposalDetails::DecreaseWorkingGroupLeadStake(1, 0, WorkingGroup::Forum),
            0
        ),
        Err(Error::DecreasingStakeIsZero)
    );
    assert_eq!(
        ensure_details_checks(
            &ProposalDetails::DecreaseWorkingGroupLeadStake(1, 5, WorkingGroup::Forum),
            0
        ),
        Ok(())
    );
}

#[test]
fn unchecked_kinds_pass() {
    assert_eq!(ensure_details_checks(&ProposalDetails::AmendConstitution(vec![]), 0), Ok(()));
    assert_eq!(ensure_details_checks(&ProposalDetails::LockBlogPost(3), 0), Ok(()));
    assert_eq!(
        ensure_details_checks(&ProposalDetails::SlashWorkingGroupLead(1, 0, WorkingGroup::Content), 0),
        Ok(())
    );
}
