use vstd::prelude::*;

use crate::account::AccountId;
use crate::rules::{investment_of, shares_in, CrowdfundingState};

verus! {

/// The sum of `amount(a)` over the accounts `a` of a finite set.
pub open spec fn total_over(accounts: Set<AccountId>, amount: spec_fn(AccountId) -> int) -> int
    decreases accounts.len(),
    when accounts.finite()
{
    if accounts.len() == 0 {
        0
    } else {
        let a = accounts.choose();
        amount(a) + total_over(accounts.remove(a), amount)
    }
}

/// Taking one account out of the sum leaves the rest of it.
pub proof fn lemma_total_remove(accounts: Set<AccountId>, amount: spec_fn(AccountId) -> int, a: AccountId)
    requires
        accounts.finite(),
        accounts.contains(a),
    ensures
        total_over(accounts, amount) == amount(a) + total_over(accounts.remove(a), amount),
    decreases accounts.len(),
{
    let c = accounts.choose();
    if c != a {
        lemma_total_remove(accounts.remove(c), amount, a);
        lemma_total_remove(accounts.remove(a), amount, c);
        assert(accounts.remove(c).remove(a) =~= accounts.remove(a).remove(c));
    }
}

/// Sums of amounts that agree on the set are equal.
pub proof fn lemma_total_agree(
    accounts: Set<AccountId>,
    amount: spec_fn(AccountId) -> int,
    other: spec_fn(AccountId) -> int,
)
    requires
        accounts.finite(),
        forall|a: AccountId| accounts.contains(a) ==> #[trigger] amount(a) == other(a),
    ensures
        total_over(accounts, amount) == total_over(accounts, other),
    decreases accounts.len(),
{
    if accounts.len() > 0 {
        let c = accounts.choose();
        lemma_total_agree(accounts.remove(c), amount, other);
    }
}

/// Accounts with a recorded investment in campaign `id`.
pub open spec fn investors_of(st: CrowdfundingState, id: u64) -> Set<AccountId> {
    Set::new(|a: AccountId| st.investments.contains_key((id, a)))
}

/// Each account's investment in campaign `id`.
pub open spec fn investment_amounts(st: CrowdfundingState, id: u64) -> spec_fn(AccountId) -> int {
    |a: AccountId| investment_of(st, id, a) as int
}

/// Whether an account's investment in campaign `id` is positive.
pub open spec fn invested_positively(st: CrowdfundingState, id: u64) -> spec_fn(AccountId) -> bool {
    |a: AccountId| investment_of(st, id, a) > 0
}

/// The recorded investments in campaign `id`, summed over all accounts.
pub open spec fn invested_total(st: CrowdfundingState, id: u64) -> int {
    total_over(investors_of(st, id), investment_amounts(st, id))
}

/// Accounts with a positive investment in campaign `id`.
pub open spec fn positive_investors(st: CrowdfundingState, id: u64) -> Set<AccountId> {
    investors_of(st, id).filter(invested_positively(st, id))
}

/// Accounts with a recorded holding of shares of campaign `campaign_id`.
pub open spec fn holders_of(holdings: Map<(u64, AccountId), u64>, campaign_id: u64) -> Set<
    AccountId,
> {
    Set::new(|a: AccountId| holdings.contains_key((campaign_id, a)))
}

/// Each account's holding of shares of campaign `campaign_id`.
pub open spec fn share_amounts(holdings: Map<(u64, AccountId), u64>, campaign_id: u64) -> spec_fn(
    AccountId,
) -> int {
    |a: AccountId| shares_in(holdings, campaign_id, a) as int
}

/// The shares of campaign `campaign_id`, summed over all accounts.
pub open spec fn shares_total(holdings: Map<(u64, AccountId), u64>, campaign_id: u64) -> int {
    total_over(holders_of(holdings, campaign_id), share_amounts(holdings, campaign_id))
}

/// The books balance: investments are recorded only for existing campaigns;
/// each campaign's raised amount is the sum of its recorded investments and
/// its investor count the number of accounts with a positive investment;
/// finitely many accounts hold shares of any campaign.
pub open spec fn ledger_consistent(st: CrowdfundingState) -> bool {
    &&& forall|k: (u64, AccountId)| #[trigger]
        st.investments.contains_key(k) ==> st.campaigns.contains_key(k.0)
    &&& forall|id: u64| #[trigger] investors_of(st, id).finite()
    &&& forall|id: u64| #[trigger] holders_of(st.share_holdings, id).finite()
    &&& forall|id: u64| #[trigger]
        st.campaigns.contains_key(id) ==> st.campaigns[id].raised_amount == invested_total(st, id)
            && st.campaigns[id].investor_count == positive_investors(st, id).len()
}


/// Taking out an account that counts zero when absent.
pub proof fn lemma_total_split(accounts: Set<AccountId>, amount: spec_fn(AccountId) -> int, a: AccountId)
    requires
        accounts.finite(),
        !accounts.contains(a) ==> amount(a) == 0,
    ensures
        total_over(accounts, amount) == amount(a) + total_over(accounts.remove(a), amount),
{
    if accounts.contains(a) {
        lemma_total_remove(accounts, amount, a);
    } else {
        assert(accounts.remove(a) =~= accounts);
    }
}

} // verus!
