//! Root-only operations that the engine runs when a proposal of the matching
//! kind is executed.
use vstd::prelude::*;

use crate::types::{BalanceKind, Error, Origin, WorkingGroup};

verus! {

/// The council's treasury and the budget of each working group.
#[derive(Clone, Copy, Debug, PartialEq, Eq, Structural)]
pub struct BudgetLedger {
    pub council_budget: u128,
    pub forum_budget: u128,
    pub storage_budget: u128,
    pub content_budget: u128,
    pub membership_budget: u128,
}

/// `a + b`, or `u128::MAX` where the sum does not fit.
pub open spec fn saturating_sum(a: u128, b: u128) -> u128 {
    if a + b > u128::MAX {
        u128::MAX
    } else {
        (a + b) as u128
    }
}

impl BudgetLedger {
    /// The budget of a working group.
    pub open spec fn budget_of(self, group: WorkingGroup) -> u128 {
        match group {
            WorkingGroup::Forum => self.forum_budget,
            WorkingGroup::Storage => self.storage_budget,
            WorkingGroup::Content => self.content_budget,
            WorkingGroup::Membership => self.membership_budget,
        }
    }

    /// The ledger with one working group's budget replaced.
    pub open spec fn with_budget(self, group: WorkingGroup, budget: u128) -> BudgetLedger {
        match group {
            WorkingGroup::Forum => BudgetLedger { forum_budget: budget, ..self },
            WorkingGroup::Storage => BudgetLedger { storage_budget: budget, ..self },
            WorkingGroup::Content => BudgetLedger { content_budget: budget, ..self },
            WorkingGroup::Membership => BudgetLedger { membership_budget: budget, ..self },
        }
    }

    /// Reads the budget of a working group.
    pub fn get_working_group_budget(&self, group: WorkingGroup) -> (r: u128)
        ensures
            r == self.budget_of(group),
    {
        match group {
            WorkingGroup::Forum => self.forum_budget,
            WorkingGroup::Storage => self.storage_budget,
            WorkingGroup::Content => self.content_budget,
            WorkingGroup::Membership => self.membership_budget,
        }
    }

    /// Sets the budget of a working group.
    pub fn set_working_group_budget(&mut self, group: WorkingGroup, budget: u128)
        ensures
            *final(self) == old(self).with_budget(group, budget),
    {
        match group {
            WorkingGroup::Forum => self.forum_budget = budget,
            WorkingGroup::Storage => self.storage_budget = budget,
            WorkingGroup::Content => self.content_budget = budget,
            WorkingGroup::Membership => self.membership_budget = budget,
        }
    }
}

/// Outcome of a budget transfer of `amount` in direction `balance_kind`: the
/// new ledger, or the error when the paying side holds less than `amount`.
/// The receiving side saturates.
pub open spec fn budget_transfer(
    ledger: BudgetLedger,
    group: WorkingGroup,
    amount: u128,
    balance_kind: BalanceKind,
) -> Result<BudgetLedger, Error> {
    let council = ledger.council_budget;
    let budget = ledger.budget_of(group);
    match balance_kind {
        BalanceKind::Positive => if amount > council {
            Err(Error::InsufficientFundsForBudgetUpdate)
        } else {
            Ok(
                BudgetLedger {
                    council_budget: (council - amount) as u128,
                    ..ledger.with_budget(group, saturating_sum(budget, amount))
                },
            )
        },
        BalanceKind::Negative => if amount > budget {
            Err(Error::InsufficientFundsForBudgetUpdate)
        } else {
            Ok(
                BudgetLedger {
                    council_budget: saturating_sum(council, amount),
                    ..ledger.with_budget(group, (budget - amount) as u128)
                },
            )
        },
    }
}

/// Accepts the root origin only.
pub fn ensure_root(origin: &Origin) -> (r: Result<(), Error>)
    ensures
        r == if *origin == Origin::Root {
            Ok::<(), Error>(())
        } else {
            Err(Error::RequireRootOrigin)
        },
{
    match origin {
        Origin::Root => Ok(()),
        _ => Err(Error::RequireRootOrigin),
    }
}

/// Executes a signal proposal: a root-only stub that changes nothing.
pub fn execute_signal_proposal(origin: &Origin, signal: &Vec<u8>) -> (r: Result<(), Error>)
    ensures
        r == if *origin == Origin::Root {
            Ok::<(), Error>(())
        } else {
            Err(Error::RequireRootOrigin)
        },
{
    ensure_root(origin)
}

/// Authorizes a runtime upgrade: on `Ok` the caller installs `wasm` as the new
/// runtime code; any origin but root is rejected.
pub fn execute_runtime_upgrade_proposal(origin: &Origin, wasm: &Vec<u8>) -> (r: Result<(), Error>)
    ensures
        r == if *origin == Origin::Root {
            Ok::<(), Error>(())
        } else {
            Err(Error::RequireRootOrigin)
        },
{
    ensure_root(origin)
}

/// Moves `amount` between the council's treasury and a working group's
/// budget: from the council for `Positive`, back to the council for
/// `Negative`. Root only. On any error the ledger is unchanged.
pub fn update_working_group_budget(
    origin: &Origin,
    ledger: &mut BudgetLedger,
    working_group: WorkingGroup,
    amount: u128,
    balance_kind: BalanceKind,
) -> (r: Result<(), Error>)
    ensures
        *origin != Origin::Root ==> r == Err::<(), Error>(Error::RequireRootOrigin) && *final(ledger)
            == *old(ledger),
        *origin == Origin::Root ==> match budget_transfer(
            *old(ledger),
            working_group,
            amount,
            balance_kind,
        ) {
            Ok(l) => r == Ok::<(), Error>(()) && *final(ledger) == l,
            Err(e) => r == Err::<(), Error>(e) && *final(ledger) == *old(ledger),
        },
{
    ensure_root(origin)?;
    let wg_budget = ledger.get_working_group_budget(working_group);
    let current_budget = ledger.council_budget;
    match balance_kind {
        BalanceKind::Positive => {
            if amount > current_budget {
                return Err(Error::InsufficientFundsForBudgetUpdate);
            }
            ledger.set_working_group_budget(working_group, wg_budget.saturating_add(amount));
            ledger.council_budget = current_budget - amount;
        },
        BalanceKind::Negative => {
            if amount > wg_budget {
                return Err(Error::InsufficientFundsForBudgetUpdate);
            }
            ledger.set_working_group_budget(working_group, wg_budget - amount);
            ledger.council_budget = current_budget.saturating_add(amount);
        },
    }
    Ok(())
}

/// A transfer that succeeds and does not saturate keeps the sum of the
/// council's treasury and the group's budget, and touches no other group.
pub proof fn lemma_budget_transfer_conserves(
    ledger: BudgetLedger,
    group: WorkingGroup,
    amount: u128,
    balance_kind: BalanceKind,
    other: WorkingGroup,
)
    requires
        ledger.council_budget + ledger.budget_of(group) <= u128::MAX,
        budget_transfer(ledger, group, amount, balance_kind) is Ok,
    ensures
        ({
            let after = budget_transfer(ledger, group, amount, balance_kind)->Ok_0;
            &&& after.council_budget + after.budget_of(group) == ledger.council_budget
                + ledger.budget_of(group)
            &&& other != group ==> after.budget_of(other) == ledger.budget_of(other)
        }),
{
}

} // verus!
