use vstd::prelude::*;

use crate::account::AccountId;
use crate::ledger::{
    holders_of, invested_positively, invested_total, investment_amounts, investors_of, ledger_consistent,
    lemma_total_agree, lemma_total_remove, lemma_total_split, positive_investors, share_amounts, shares_total,
};
use crate::discovery::{
    listed,
    by_raised_desc, candidate, insertion_point, lemma_insertion_point, matches_filter, page_window,
    picked, raised_descending, reports, status_count, summary_of, CampaignQuery,
};
use crate::rules::{
    after_sale, has_voted, invest_refusal, investment_of, shares_in, activate_campaign_outcome,
    add_milestone_outcome, approve_milestone_outcome, assess_risk_outcome, buy_fits,
    buy_shares_outcome, create_campaign_outcome, create_proposal_outcome, finalize_proposal_outcome,
    initial_state, invest_fits, invest_outcome, list_shares_outcome, onboard_investor_outcome,
    release_milestone_outcome, vote_fits, vote_outcome, CrowdfundingState,
};
use crate::types::{
    RiskRating, Campaign, CampaignFilter, CampaignSummary, CampaignStatus, CrowdfundingError, MilestoneStatus,
    ProposalStatus,
};

verus! {

/// A message to the crowdfunding contract that may change its state.
pub enum Request {
    CreateCampaign { title: String, target_amount: u128 },
    ActivateCampaign { campaign_id: u64 },
    OnboardInvestor { jurisdiction: String, accredited: bool },
    Invest { campaign_id: u64, amount: u128 },
    AddMilestone { campaign_id: u64, description: String, release_amount: u128 },
    ApproveMilestone { milestone_id: u64 },
    ReleaseMilestone { milestone_id: u64 },
    CreateProposal { campaign_id: u64, description: String },
    Vote { proposal_id: u64, in_favour: bool },
    FinalizeProposal { proposal_id: u64 },
    ListShares { campaign_id: u64, shares: u64, price_per_share: u128 },
    BuyShares { listing_id: u64 },
    AssessRisk { campaign_id: u64, ltv: u32, dev_score: u32, volatility: u32 },
}

/// What an accepted request answers.
pub enum Reply {
    Done,
    Id(u64),
    Verdict(ProposalStatus),
    Cost(u128),
}

pub open spec fn done_reply(r: Result<(), CrowdfundingError>) -> Result<Reply, CrowdfundingError> {
    match r {
        Ok(_) => Ok(Reply::Done),
        Err(e) => Err(e),
    }
}

pub open spec fn id_reply(r: Result<u64, CrowdfundingError>) -> Result<Reply, CrowdfundingError> {
    match r {
        Ok(id) => Ok(Reply::Id(id)),
        Err(e) => Err(e),
    }
}

/// The state after `caller` sends `req`, and the answer.
pub open spec fn handle(st: CrowdfundingState, caller: AccountId, req: Request) -> (
    CrowdfundingState,
    Result<Reply, CrowdfundingError>,
) {
    match req {
        Request::CreateCampaign { title, target_amount } => {
            let o = create_campaign_outcome(st, caller, title, target_amount);
            (o.0, id_reply(o.1))
        },
        Request::ActivateCampaign { campaign_id } => {
            let o = activate_campaign_outcome(st, caller, campaign_id);
            (o.0, done_reply(o.1))
        },
        Request::OnboardInvestor { jurisdiction, accredited } => {
            let o = onboard_investor_outcome(st, caller, jurisdiction, accredited);
            (o.0, done_reply(o.1))
        },
        Request::Invest { campaign_id, amount } => {
            let o = invest_outcome(st, caller, campaign_id, amount);
            (o.0, done_reply(o.1))
        },
        Request::AddMilestone { campaign_id, description, release_amount } => {
            let o = add_milestone_outcome(st, caller, campaign_id, description, release_amount);
            (o.0, id_reply(o.1))
        },
        Request::ApproveMilestone { milestone_id } => {
            let o = approve_milestone_outcome(st, caller, milestone_id);
            (o.0, done_reply(o.1))
        },
        Request::ReleaseMilestone { milestone_id } => {
            let o = release_milestone_outcome(st, milestone_id);
            (o.0, done_reply(o.1))
        },
        Request::CreateProposal { campaign_id, description } => {
            let o = create_proposal_outcome(st, campaign_id, description);
            (o.0, id_reply(o.1))
        },
        Request::Vote { proposal_id, in_favour } => {
            let o = vote_outcome(st, caller, proposal_id, in_favour);
            (o.0, done_reply(o.1))
        },
        Request::FinalizeProposal { proposal_id } => {
            let o = finalize_proposal_outcome(st, proposal_id);
            (
                o.0,
                match o.1 {
                    Ok(v) => Ok(Reply::Verdict(v)),
                    Err(e) => Err(e),
                },
            )
        },
        Request::ListShares { campaign_id, shares, price_per_share } => {
            let o = list_shares_outcome(st, caller, campaign_id, shares, price_per_share);
            (o.0, id_reply(o.1))
        },
        Request::BuyShares { listing_id } => {
            let o = buy_shares_outcome(st, caller, listing_id);
            (
                o.0,
                match o.1 {
                    Ok(c) => Ok(Reply::Cost(c)),
                    Err(e) => Err(e),
                },
            )
        },
        Request::AssessRisk { campaign_id, ltv, dev_score, volatility } => {
            let o = assess_risk_outcome(st, caller, campaign_id, ltv, dev_score, volatility);
            (o.0, done_reply(o.1))
        },
    }
}

/// Whether the contract can serve `req` without a counter leaving its type
/// (the `requires` of the message).
pub open spec fn admissible(st: CrowdfundingState, caller: AccountId, req: Request) -> bool {
    match req {
        Request::CreateCampaign { .. } => st.campaign_count < u64::MAX,
        Request::Invest { campaign_id, amount } => invest_fits(st, caller, campaign_id, amount),
        Request::AddMilestone { .. } => st.milestone_count < u64::MAX,
        Request::CreateProposal { .. } => st.proposal_count < u64::MAX,
        Request::Vote { proposal_id, in_favour } => vote_fits(st, caller, proposal_id, in_favour),
        Request::ListShares { .. } => st.listing_count < u64::MAX,
        Request::BuyShares { listing_id } => buy_fits(st, caller, listing_id),
        _ => true,
    }
}

/// The structure every reachable state has: ids are handed out 1, 2, 3, …
/// and each record is stored under its own id; milestones and proposals
/// belong to existing campaigns; profiles are stored under their subject.
pub open spec fn well_formed(st: CrowdfundingState) -> bool {
    &&& st.campaign_ids.len() == st.campaign_count
    &&& forall|i: int| 0 <= i < st.campaign_ids.len() ==> #[trigger] st.campaign_ids[i] == i + 1
    &&& forall|id: u64| #[trigger] st.campaigns.contains_key(id) <==> 1 <= id <= st.campaign_count
    &&& forall|id: u64| #[trigger]
        st.campaigns.contains_key(id) ==> st.campaigns[id].campaign_id == id
    &&& forall|id: u64| #[trigger] st.milestones.contains_key(id) <==> 1 <= id <= st.milestone_count
    &&& forall|id: u64| #[trigger]
        st.milestones.contains_key(id) ==> st.milestones[id].milestone_id == id
            && st.campaigns.contains_key(st.milestones[id].campaign_id)
    &&& forall|id: u64| #[trigger] st.proposals.contains_key(id) <==> 1 <= id <= st.proposal_count
    &&& forall|id: u64| #[trigger]
        st.proposals.contains_key(id) ==> st.proposals[id].proposal_id == id
            && st.campaigns.contains_key(st.proposals[id].campaign_id)
    &&& forall|id: u64| #[trigger]
        st.listings.contains_key(id) ==> 1 <= id <= st.listing_count && st.listings[id].listing_id
            == id
    &&& forall|id: u64| #[trigger]
        st.risk_profiles.contains_key(id) ==> st.risk_profiles[id].campaign_id == id
    &&& forall|a: AccountId| #[trigger]
        st.investor_profiles.contains_key(a) ==> st.investor_profiles[a].investor == a
}

/// A freshly deployed contract is well formed.
pub proof fn lemma_initial_state_well_formed(admin: AccountId)
    ensures
        well_formed(initial_state(admin)),
{
}

/// Every request the contract can serve keeps the state well formed.
pub proof fn lemma_requests_keep_well_formed(st: CrowdfundingState, caller: AccountId, req: Request)
    requires
        well_formed(st),
        admissible(st, caller, req),
    ensures
        well_formed(handle(st, caller, req).0),
{
    match req {
        Request::CreateCampaign { title, target_amount } => {
            lemma_create_campaign_keeps_well_formed(st, caller, title, target_amount)
        },
        Request::ActivateCampaign { campaign_id } => {
            lemma_activate_keeps_well_formed(st, caller, campaign_id)
        },
        Request::OnboardInvestor { jurisdiction, accredited } => {
            lemma_onboard_keeps_well_formed(st, caller, jurisdiction, accredited)
        },
        Request::Invest { campaign_id, amount } => {
            lemma_invest_keeps_well_formed(st, caller, campaign_id, amount)
        },
        Request::AddMilestone { campaign_id, description, release_amount } => {
            lemma_add_milestone_keeps_well_formed(st, caller, campaign_id, description, release_amount)
        },
        Request::ApproveMilestone { milestone_id } => {
            lemma_approve_keeps_well_formed(st, caller, milestone_id)
        },
        Request::ReleaseMilestone { milestone_id } => {
            lemma_release_keeps_well_formed(st, milestone_id)
        },
        Request::CreateProposal { campaign_id, description } => {
            lemma_create_proposal_keeps_well_formed(st, campaign_id, description)
        },
        Request::Vote { proposal_id, in_favour } => {
            lemma_vote_keeps_well_formed(st, caller, proposal_id, in_favour)
        },
        Request::FinalizeProposal { proposal_id } => {
            lemma_finalize_keeps_well_formed(st, proposal_id)
        },
        Request::ListShares { campaign_id, shares, price_per_share } => {
            lemma_list_keeps_well_formed(st, caller, campaign_id, shares, price_per_share)
        },
        Request::BuyShares { listing_id } => { lemma_buy_keeps_well_formed(st, caller, listing_id) },
        Request::AssessRisk { campaign_id, ltv, dev_score, volatility } => {
            lemma_assess_keeps_well_formed(st, caller, campaign_id, ltv, dev_score, volatility)
        },
    }
}

proof fn lemma_create_campaign_keeps_well_formed(
    st: CrowdfundingState,
    caller: AccountId,
    title: String,
    target_amount: u128,
)
    requires
        well_formed(st),
        st.campaign_count < u64::MAX,
    ensures
        well_formed(create_campaign_outcome(st, caller, title, target_amount).0),
{
    let post = create_campaign_outcome(st, caller, title, target_amount).0;
    assert forall|i: int| 0 <= i < post.campaign_ids.len() implies #[trigger] post.campaign_ids[i]
        == i + 1 by {
        if i < st.campaign_ids.len() {
            assert(post.campaign_ids[i] == st.campaign_ids[i]);
        }
    }
}

proof fn lemma_activate_keeps_well_formed(st: CrowdfundingState, caller: AccountId, campaign_id: u64)
    requires
        well_formed(st),
    ensures
        well_formed(activate_campaign_outcome(st, caller, campaign_id).0),
{
}

proof fn lemma_onboard_keeps_well_formed(
    st: CrowdfundingState,
    caller: AccountId,
    jurisdiction: String,
    accredited: bool,
)
    requires
        well_formed(st),
    ensures
        well_formed(onboard_investor_outcome(st, caller, jurisdiction, accredited).0),
{
}

proof fn lemma_invest_keeps_well_formed(
    st: CrowdfundingState,
    caller: AccountId,
    campaign_id: u64,
    amount: u128,
)
    requires
        well_formed(st),
        invest_fits(st, caller, campaign_id, amount),
    ensures
        well_formed(invest_outcome(st, caller, campaign_id, amount).0),
{
}

proof fn lemma_add_milestone_keeps_well_formed(
    st: CrowdfundingState,
    caller: AccountId,
    campaign_id: u64,
    description: String,
    release_amount: u128,
)
    requires
        well_formed(st),
        st.milestone_count < u64::MAX,
    ensures
        well_formed(
            add_milestone_outcome(st, caller, campaign_id, description, release_amount).0,
        ),
{
}

proof fn lemma_approve_keeps_well_formed(st: CrowdfundingState, caller: AccountId, milestone_id: u64)
    requires
        well_formed(st),
    ensures
        well_formed(approve_milestone_outcome(st, caller, milestone_id).0),
{
}

proof fn lemma_release_keeps_well_formed(st: CrowdfundingState, milestone_id: u64)
    requires
        well_formed(st),
    ensures
        well_formed(release_milestone_outcome(st, milestone_id).0),
{
}

proof fn lemma_create_proposal_keeps_well_formed(
    st: CrowdfundingState,
    campaign_id: u64,
    description: String,
)
    requires
        well_formed(st),
        st.proposal_count < u64::MAX,
    ensures
        well_formed(create_proposal_outcome(st, campaign_id, description).0),
{
}

proof fn lemma_vote_keeps_well_formed(
    st: CrowdfundingState,
    caller: AccountId,
    proposal_id: u64,
    in_favour: bool,
)
    requires
        well_formed(st),
        vote_fits(st, caller, proposal_id, in_favour),
    ensures
        well_formed(vote_outcome(st, caller, proposal_id, in_favour).0),
{
}

proof fn lemma_finalize_keeps_well_formed(st: CrowdfundingState, proposal_id: u64)
    requires
        well_formed(st),
    ensures
        well_formed(finalize_proposal_outcome(st, proposal_id).0),
{
}

proof fn lemma_list_keeps_well_formed(
    st: CrowdfundingState,
    caller: AccountId,
    campaign_id: u64,
    shares: u64,
    price_per_share: u128,
)
    requires
        well_formed(st),
        st.listing_count < u64::MAX,
    ensures
        well_formed(list_shares_outcome(st, caller, campaign_id, shares, price_per_share).0),
{
}

proof fn lemma_buy_keeps_well_formed(st: CrowdfundingState, caller: AccountId, listing_id: u64)
    requires
        well_formed(st),
        buy_fits(st, caller, listing_id),
    ensures
        well_formed(buy_shares_outcome(st, caller, listing_id).0),
{
}

proof fn lemma_assess_keeps_well_formed(
    st: CrowdfundingState,
    caller: AccountId,
    campaign_id: u64,
    ltv: u32,
    dev_score: u32,
    volatility: u32,
)
    requires
        well_formed(st),
    ensures
        well_formed(assess_risk_outcome(st, caller, campaign_id, ltv, dev_score, volatility).0),
{
}

/// A refused request changes nothing: no record, no counter, no event.
pub proof fn lemma_refusal_changes_nothing(st: CrowdfundingState, caller: AccountId, req: Request)
    requires
        handle(st, caller, req).1 is Err,
    ensures
        handle(st, caller, req).0 == st,
{
}


/// What no request undoes: the admin stays, campaigns are never removed and
/// keep their creator, title and target, the counters never go down, and
/// events are only ever appended, at most one per request.
pub proof fn lemma_requests_keep_history(st: CrowdfundingState, caller: AccountId, req: Request)
    requires
        well_formed(st),
        admissible(st, caller, req),
    ensures
        handle(st, caller, req).0.admin == st.admin,
        handle(st, caller, req).0.campaign_count >= st.campaign_count,
        handle(st, caller, req).0.milestone_count >= st.milestone_count,
        handle(st, caller, req).0.proposal_count >= st.proposal_count,
        handle(st, caller, req).0.listing_count >= st.listing_count,
        forall|id: u64| #[trigger]
            st.campaigns.contains_key(id) ==> handle(st, caller, req).0.campaigns.contains_key(id)
                && handle(st, caller, req).0.campaigns[id].creator == st.campaigns[id].creator
                && handle(st, caller, req).0.campaigns[id].title == st.campaigns[id].title
                && handle(st, caller, req).0.campaigns[id].target_amount
                == st.campaigns[id].target_amount,
        st.events.len() <= handle(st, caller, req).0.events.len() <= st.events.len() + 1,
        handle(st, caller, req).0.events.take(st.events.len() as int) == st.events,
{
    let post = handle(st, caller, req).0;
    assert(post.events.take(st.events.len() as int) =~= st.events);
    match req {
        Request::CreateCampaign { .. } => {},
        Request::ActivateCampaign { .. } => {},
        Request::Invest { .. } => {},
        _ => {},
    }
}

/// An account votes once on a proposal: after an accepted vote, a second
/// vote by the same account on the same proposal may always be sent (nothing
/// bounds it), is refused as `AlreadyVoted`, and changes nothing.
pub proof fn lemma_vote_once(
    st: CrowdfundingState,
    voter: AccountId,
    proposal_id: u64,
    first: bool,
    second: bool,
)
    requires
        vote_outcome(st, voter, proposal_id, first).1 is Ok,
    ensures
        vote_outcome(vote_outcome(st, voter, proposal_id, first).0, voter, proposal_id, second)
            == (vote_outcome(st, voter, proposal_id, first).0, Err::<(), CrowdfundingError>(
            CrowdfundingError::AlreadyVoted,
        )),
        vote_fits(vote_outcome(st, voter, proposal_id, first).0, voter, proposal_id, second),
{
    let mid = vote_outcome(st, voter, proposal_id, first).0;
    assert(has_voted(mid, proposal_id, voter));
    assert(vote_fits(mid, voter, proposal_id, second));
}

/// A milestone is released once: after an accepted release, releasing it
/// again is refused as `MilestoneNotApproved`.
pub proof fn lemma_release_once(st: CrowdfundingState, milestone_id: u64)
    requires
        release_milestone_outcome(st, milestone_id).1 is Ok,
    ensures
        release_milestone_outcome(st, milestone_id).0.milestones[milestone_id].status
            == MilestoneStatus::Released,
        release_milestone_outcome(release_milestone_outcome(st, milestone_id).0, milestone_id).1
            == Err::<(), CrowdfundingError>(CrowdfundingError::MilestoneNotApproved),
{
}

/// Campaign ids are handed out one after another, and what is created can be read back.
pub proof fn lemma_campaigns_numbered_in_order(
    st: CrowdfundingState,
    caller: AccountId,
    title: String,
    target_amount: u128,
    second_caller: AccountId,
    second_title: String,
    second_target: u128,
)
    requires
        st.campaign_count + 2 <= u64::MAX,
    ensures
        ({
            let (mid, first) = create_campaign_outcome(st, caller, title, target_amount);
            let (post, second) = create_campaign_outcome(
                mid,
                second_caller,
                second_title,
                second_target,
            );
            &&& first == Ok::<u64, CrowdfundingError>((st.campaign_count + 1) as u64)
            &&& second == Ok::<u64, CrowdfundingError>((st.campaign_count + 2) as u64)
            &&& post.campaigns[(st.campaign_count + 1) as u64] == (Campaign {
                campaign_id: (st.campaign_count + 1) as u64,
                creator: caller,
                title,
                target_amount,
                raised_amount: 0,
                status: CampaignStatus::Draft,
                investor_count: 0,
            })
        }),
{
}

/// An accepted investment adds the amount to what the campaign raised and
/// to what the investor put in, and the campaign is funded exactly when it
/// has reached its target.
pub proof fn lemma_invest_accounting(
    st: CrowdfundingState,
    caller: AccountId,
    campaign_id: u64,
    amount: u128,
)
    requires
        invest_fits(st, caller, campaign_id, amount),
        invest_outcome(st, caller, campaign_id, amount).1 is Ok,
    ensures
        ({
            let post = invest_outcome(st, caller, campaign_id, amount).0;
            let before = st.campaigns[campaign_id];
            let after = post.campaigns[campaign_id];
            &&& after.raised_amount == before.raised_amount + amount
            &&& investment_of(post, campaign_id, caller) == investment_of(st, campaign_id, caller)
                + amount
            &&& (after.status == CampaignStatus::Funded) == (after.raised_amount
                >= after.target_amount)
            &&& after.status == CampaignStatus::Active || after.status == CampaignStatus::Funded
        }),
{
}

/// A proposal passes exactly when more votes are for it than against it.
pub proof fn lemma_majority_decides(st: CrowdfundingState, proposal_id: u64)
    requires
        st.proposals.contains_key(proposal_id),
    ensures
        finalize_proposal_outcome(st, proposal_id).1 == Ok::<ProposalStatus, CrowdfundingError>(
            if st.proposals[proposal_id].votes_for > st.proposals[proposal_id].votes_against {
                ProposalStatus::Passed
            } else {
                ProposalStatus::Rejected
            },
        ),
{
}

/// Buying a listing moves its shares from the seller to the buyer: when the
/// seller still holds them and is not the buyer, their joint holding is
/// unchanged and no other holding changes.
pub proof fn lemma_buy_moves_shares(st: CrowdfundingState, buyer: AccountId, listing_id: u64)
    requires
        st.listings.contains_key(listing_id),
        buy_fits(st, buyer, listing_id),
        buyer != st.listings[listing_id].seller,
        shares_in(st.share_holdings, st.listings[listing_id].campaign_id, st.listings[listing_id].seller)
            >= st.listings[listing_id].shares,
    ensures
        ({
            let l = st.listings[listing_id];
            let post = buy_shares_outcome(st, buyer, listing_id).0;
            &&& shares_in(post.share_holdings, l.campaign_id, l.seller) + shares_in(
                post.share_holdings,
                l.campaign_id,
                buyer,
            ) == shares_in(st.share_holdings, l.campaign_id, l.seller) + shares_in(
                st.share_holdings,
                l.campaign_id,
                buyer,
            )
            &&& shares_in(post.share_holdings, l.campaign_id, buyer) == shares_in(
                st.share_holdings,
                l.campaign_id,
                buyer,
            ) + l.shares
            &&& forall|k: (u64, AccountId)|
                k != (l.campaign_id, l.seller) && k != (l.campaign_id, buyer) ==> (
                #[trigger] post.share_holdings.contains_key(k) == st.share_holdings.contains_key(k)
                    && post.share_holdings[k] == st.share_holdings[k])
            &&& !post.listings.contains_key(listing_id)
        }),
{
    let l = st.listings[listing_id];
    let sold = after_sale(st.share_holdings, l);
    assert(shares_in(sold, l.campaign_id, buyer) == shares_in(st.share_holdings, l.campaign_id, buyer));
}


/// The ranking used for the top campaigns is ordered by raised amount,
/// largest first, and holds exactly the summaries it ranks.
pub proof fn lemma_ranking_sorted_permutation(s: Seq<CampaignSummary>)
    ensures
        raised_descending(by_raised_desc(s)),
        by_raised_desc(s).to_multiset() == s.to_multiset(),
        by_raised_desc(s).len() == s.len(),
    decreases s.len(),
{
    if s.len() > 0 {
        let rest = s.drop_last();
        let x = s.last();
        let t = by_raised_desc(rest);
        lemma_ranking_sorted_permutation(rest);
        lemma_insertion_point(t, x);
        let p = insertion_point(t, x) as int;
        let r = t.insert(p, x);
        assert forall|i: int, j: int| 0 <= i < j < r.len() implies #[trigger] r[i].raised_amount
            >= #[trigger] r[j].raised_amount by {
            if j < p {
                assert(r[i] == t[i] && r[j] == t[j]);
            } else if j == p {
                assert(r[i] == t[i]);
            } else if i < p {
                assert(r[i] == t[i] && r[j] == t[j - 1]);
                assert(t[i].raised_amount >= x.raised_amount);
                assert(t[p].raised_amount < x.raised_amount);
            } else if i == p {
                assert(r[j] == t[j - 1]);
                assert(t[p].raised_amount < x.raised_amount);
                if j - 1 > p {
                    assert(t[p].raised_amount >= t[j - 1].raised_amount);
                }
            } else {
                assert(r[i] == t[i - 1] && r[j] == t[j - 1]);
            }
        }
        vstd::seq_lib::to_multiset_insert(t, p, x);
        vstd::seq_lib::to_multiset_build(rest, x);
        assert(rest.push(x) =~= s);
    }
}

/// The top campaigns come out ordered by raised amount, largest first.
pub proof fn lemma_top_campaigns_descending(s: Seq<CampaignSummary>, n: int)
    requires
        0 <= n <= s.len(),
    ensures
        raised_descending(by_raised_desc(s).take(n)),
{
    lemma_ranking_sorted_permutation(s);
    let r = by_raised_desc(s);
    assert forall|i: int, j: int| 0 <= i < j < r.take(n).len() implies #[trigger] r.take(n)[i].raised_amount
        >= #[trigger] r.take(n)[j].raised_amount by {
        assert(r.take(n)[i] == r[i] && r.take(n)[j] == r[j]);
    }
}

/// A query reports at most `limit` summaries, never more than it walks
/// over, each meeting the query and each the summary of a campaign it looked at.
pub proof fn lemma_query_results(st: CrowdfundingState, ids: Seq<u64>, q: CampaignQuery, limit: nat)
    ensures
        picked(st, ids, q, limit).len() <= limit,
        picked(st, ids, q, limit).len() <= ids.len(),
        forall|k: int|
            0 <= k < picked(st, ids, q, limit).len() ==> reports(
                q,
                #[trigger] picked(st, ids, q, limit)[k],
            ),
        forall|k: int|
            #![trigger picked(st, ids, q, limit)[k]]
            0 <= k < picked(st, ids, q, limit).len() ==> exists|i: int|
                0 <= i < ids.len() && candidate(st, q, #[trigger] ids[i])
                    && picked(st, ids, q, limit)[k] == summary_of(st, st.campaigns[ids[i]]),
    decreases ids.len(),
{
    if ids.len() == 0 || limit == 0 {
    } else {
        let rest = ids.drop_first();
        let out = picked(st, ids, q, limit);
        if candidate(st, q, ids[0]) && reports(q, summary_of(st, st.campaigns[ids[0]])) {
            let tail = picked(st, rest, q, (limit - 1) as nat);
            lemma_query_results(st, rest, q, (limit - 1) as nat);
            assert forall|k: int| 0 <= k < out.len() implies reports(q, #[trigger] out[k]) by {
                if k > 0 {
                    assert(out[k] == tail[k - 1]);
                }
            }
            assert forall|k: int| #![trigger out[k]] 0 <= k < out.len() implies exists|i: int|
                0 <= i < ids.len() && candidate(st, q, #[trigger] ids[i]) && out[k] == summary_of(
                    st,
                    st.campaigns[ids[i]],
                ) by {
                if k == 0 {
                    assert(candidate(st, q, ids[0]));
                } else {
                    assert(out[k] == tail[k - 1]);
                    let i = choose|i: int|
                        0 <= i < rest.len() && candidate(st, q, #[trigger] rest[i]) && tail[k - 1]
                            == summary_of(st, st.campaigns[rest[i]]);
                    assert(rest[i] == ids[i + 1]);
                }
            }
        } else {
            let tail = picked(st, rest, q, limit);
            lemma_query_results(st, rest, q, limit);
            assert forall|k: int| #![trigger out[k]] 0 <= k < out.len() implies exists|i: int|
                0 <= i < ids.len() && candidate(st, q, #[trigger] ids[i]) && out[k] == summary_of(
                    st,
                    st.campaigns[ids[i]],
                ) by {
                let i = choose|i: int|
                    0 <= i < rest.len() && candidate(st, q, #[trigger] rest[i]) && tail[k]
                        == summary_of(st, st.campaigns[rest[i]]);
                assert(rest[i] == ids[i + 1]);
            }
        }
    }
}

/// A filter that sets no criterion matches every campaign.
pub proof fn lemma_open_filter_matches_all(s: CampaignSummary, f: CampaignFilter)
    requires
        f.status is None,
        f.title_keyword is None,
        f.min_target is None,
        f.max_target is None,
        f.min_funded_pct is None,
        !f.funded_only,
    ensures
        matches_filter(s, f),
{
}

/// How many of the ids have a stored campaign.
pub open spec fn stored_count(st: CrowdfundingState, ids: Seq<u64>) -> nat
    decreases ids.len(),
{
    if ids.len() == 0 {
        0
    } else {
        stored_count(st, ids.drop_last()) + if st.campaigns.contains_key(ids.last()) {
            1nat
        } else {
            0nat
        }
    }
}

/// Every stored campaign is counted under exactly one status.
pub proof fn lemma_stats_partition(st: CrowdfundingState, ids: Seq<u64>)
    ensures
        status_count(st, ids, CampaignStatus::Draft) + status_count(st, ids, CampaignStatus::Active)
            + status_count(st, ids, CampaignStatus::Funded) + status_count(
            st,
            ids,
            CampaignStatus::Closed,
        ) + status_count(st, ids, CampaignStatus::Cancelled) == stored_count(st, ids),
    decreases ids.len(),
{
    if ids.len() > 0 {
        lemma_stats_partition(st, ids.drop_last());
    }
}

/// In a well-formed state the campaign statistics add up to the number of
/// campaigns ever created.
pub proof fn lemma_stats_count_every_campaign(st: CrowdfundingState)
    requires
        well_formed(st),
    ensures
        status_count(st, st.campaign_ids, CampaignStatus::Draft) + status_count(
            st,
            st.campaign_ids,
            CampaignStatus::Active,
        ) + status_count(st, st.campaign_ids, CampaignStatus::Funded) + status_count(
            st,
            st.campaign_ids,
            CampaignStatus::Closed,
        ) + status_count(st, st.campaign_ids, CampaignStatus::Cancelled) == st.campaign_count,
{
    lemma_stats_partition(st, st.campaign_ids);
    lemma_stored_prefix(st, st.campaign_ids.len() as int);
    assert(st.campaign_ids.take(st.campaign_ids.len() as int) =~= st.campaign_ids);
}

proof fn lemma_stored_prefix(st: CrowdfundingState, n: int)
    requires
        well_formed(st),
        0 <= n <= st.campaign_ids.len(),
    ensures
        stored_count(st, st.campaign_ids.take(n)) == n,
    decreases n,
{
    if n > 0 {
        lemma_stored_prefix(st, n - 1);
        assert(st.campaign_ids.take(n).drop_last() =~= st.campaign_ids.take(n - 1));
        assert(st.campaign_ids[n - 1] == n);
    }
}

/// Consecutive pages join up: page `p` followed by page `p + 1` lists the
/// ids from position `p * size` up to `(p + 2) * size`.
pub proof fn lemma_pages_join(ids: Seq<u64>, p: u64, size: u64)
    requires
        0 < size,
        (p + 2) * size <= u64::MAX,
        (p + 2) * size <= usize::MAX,
    ensures
        ({
            let lo = if p * size < ids.len() {
                p * size
            } else {
                ids.len() as int
            };
            let hi = if (p + 2) * size < ids.len() {
                (p + 2) * size
            } else {
                ids.len() as int
            };
            page_window(ids, p, size) + page_window(ids, (p + 1) as u64, size) == ids.subrange(lo, hi)
        }),
{
    assert((p + 1) * size == p * size + size) by (nonlinear_arith);
    assert((p + 2) * size == p * size + 2 * size) by (nonlinear_arith);
    assert(0 <= p * size) by (nonlinear_arith);
    let lo = if p * size < ids.len() {
        p * size
    } else {
        ids.len() as int
    };
    let hi = if (p + 2) * size < ids.len() {
        (p + 2) * size
    } else {
        ids.len() as int
    };
    assert(p + 2 <= (p + 2) * size) by (nonlinear_arith)
        requires
            size >= 1,
    ;
    assert(((p + 1) as u64) as int == p + 1);
    let a = p * size;
    let b = ((p + 1) as u64) * size;
    assert(b == a + size);
    assert((a as usize) as int == a);
    assert((b as usize) as int == b);
    let mid = if b < ids.len() {
        b
    } else {
        ids.len() as int
    };
    assert(page_window(ids, p, size) =~= ids.subrange(lo, mid));
    assert(page_window(ids, (p + 1) as u64, size) =~= ids.subrange(mid, hi));
    assert(ids.subrange(lo, mid) + ids.subrange(mid, hi) =~= ids.subrange(lo, hi));
}


/// Selects the summaries that raised exactly `amount`.
pub open spec fn raised_exactly(amount: u128) -> spec_fn(CampaignSummary) -> bool {
    |x: CampaignSummary| x.raised_amount == amount
}

/// The ranking is stable: the summaries that raised any one amount come out
/// in the order they went in.
pub proof fn lemma_ranking_stable(s: Seq<CampaignSummary>, amount: u128)
    ensures
        by_raised_desc(s).filter(raised_exactly(amount)) == s.filter(raised_exactly(amount)),
    decreases s.len(),
{
    if s.len() > 0 {
        let pred = raised_exactly(amount);
        let rest = s.drop_last();
        let x = s.last();
        let t = by_raised_desc(rest);
        lemma_ranking_stable(rest, amount);
        lemma_ranking_sorted_permutation(rest);
        lemma_insertion_point(t, x);
        let p = insertion_point(t, x) as int;
        let head = t.take(p);
        let tail = t.skip(p);
        let one = seq![x];
        assert(t.insert(p, x) =~= head + (one + tail));
        assert(t =~= head + tail);
        Seq::filter_distributes_over_add(head, one + tail, pred);
        Seq::filter_distributes_over_add(one, tail, pred);
        Seq::filter_distributes_over_add(head, tail, pred);
        reveal_with_fuel(Seq::filter, 2);
        assert(one.drop_last() =~= Seq::<CampaignSummary>::empty());
        assert(rest.push(x) =~= s);
        assert(s.drop_last() =~= rest);
        if pred(x) {
            assert forall|i: int| 0 <= i < tail.len() implies !pred(#[trigger] tail[i]) by {
                assert(tail[i] == t[p + i]);
                if i > 0 {
                    assert(t[p].raised_amount >= t[p + i].raised_amount);
                }
            }
            tail.lemma_all_neg_filter_empty(pred);
            assert(tail.filter(pred) =~= Seq::<CampaignSummary>::empty());
            assert(one.filter(pred) =~= one);
            assert(by_raised_desc(s).filter(pred) =~= s.filter(pred));
        } else {
            assert(one.filter(pred) =~= Seq::<CampaignSummary>::empty());
            assert(by_raised_desc(s).filter(pred) =~= s.filter(pred));
        }
    }
}


/// Money enters only through `invest`: every other request leaves the
/// recorded investments and every campaign's raised amount as they were
/// (an accepted investment adds the same amount to both, see
/// `lemma_invest_accounting`).
pub proof fn lemma_funds_move_only_by_invest(st: CrowdfundingState, caller: AccountId, req: Request)
    requires
        well_formed(st),
        admissible(st, caller, req),
        !(req is Invest),
    ensures
        handle(st, caller, req).0.investments == st.investments,
        forall|id: u64| #[trigger]
            st.campaigns.contains_key(id) ==> handle(st, caller, req).0.campaigns[id].raised_amount
                == st.campaigns[id].raised_amount,
{
    match req {
        Request::CreateCampaign { .. } => {},
        Request::ActivateCampaign { .. } => {},
        _ => {},
    }
}


/// A freshly deployed contract's books balance.
pub proof fn lemma_initial_ledger(admin: AccountId)
    ensures
        ledger_consistent(initial_state(admin)),
{
    let st = initial_state(admin);
    assert forall|id: u64| #[trigger] investors_of(st, id).finite() by {
        assert(investors_of(st, id) =~= Set::empty());
    }
    assert forall|id: u64| #[trigger] holders_of(st.share_holdings, id).finite() by {
        assert(holders_of(st.share_holdings, id) =~= Set::empty());
    }
}

proof fn lemma_invest_keeps_ledger(st: CrowdfundingState, caller: AccountId, id: u64, amount: u128)
    requires
        well_formed(st),
        ledger_consistent(st),
        invest_fits(st, caller, id, amount),
        amount > 0 || invest_outcome(st, caller, id, amount).1 is Err,
    ensures
        ledger_consistent(invest_outcome(st, caller, id, amount).0),
{
    let post = invest_outcome(st, caller, id, amount).0;
    if invest_refusal(st, caller, id) is None {
        let cur = investment_of(st, id, caller);
        assert forall|i: u64| #[trigger] investors_of(post, i).finite() by {
            if i == id {
                assert(investors_of(post, i) =~= investors_of(st, i).insert(caller));
            } else {
                assert(investors_of(post, i) =~= investors_of(st, i));
            }
        }
        assert forall|i: u64| #[trigger] holders_of(post.share_holdings, i).finite() by {
            if i == id {
                assert(holders_of(post.share_holdings, i) =~= holders_of(st.share_holdings, i).insert(
                    caller,
                ));
            } else {
                assert(holders_of(post.share_holdings, i) =~= holders_of(st.share_holdings, i));
            }
        }
        assert forall|i: u64| #[trigger] post.campaigns.contains_key(i) implies post.campaigns[i].raised_amount
            == invested_total(post, i) && post.campaigns[i].investor_count == positive_investors(
            post,
            i,
        ).len() by {
            let s0 = investors_of(st, i);
            let s1 = investors_of(post, i);
            let f0 = investment_amounts(st, i);
            let f1 = investment_amounts(post, i);
            if i == id {
                assert(s1 =~= s0.insert(caller));
                lemma_total_remove(s1, f1, caller);
                assert(s1.remove(caller) =~= s0.remove(caller));
                assert forall|a: AccountId| s0.remove(caller).contains(a) implies #[trigger] f1(a)
                    == f0(a) by {}
                lemma_total_agree(s0.remove(caller), f1, f0);
                if s0.contains(caller) {
                    lemma_total_remove(s0, f0, caller);
                } else {
                    assert(s0.remove(caller) =~= s0);
                }
                let p0 = positive_investors(st, i);
                let p1 = positive_investors(post, i);
                s0.lemma_len_filter(invested_positively(st, i));
                if cur == 0 {
                    assert(p1 =~= p0.insert(caller));
                    assert(!p0.contains(caller));
                } else {
                    assert(p1 =~= p0);
                }
            } else {
                assert(s1 =~= s0);
                assert forall|a: AccountId| s0.contains(a) implies #[trigger] f1(a) == f0(a) by {}
                lemma_total_agree(s0, f1, f0);
                assert(positive_investors(post, i) =~= positive_investors(st, i));
            }
        }
    }
}

proof fn lemma_create_keeps_ledger(st: CrowdfundingState, caller: AccountId, title: String, target_amount: u128)
    requires
        well_formed(st),
        ledger_consistent(st),
        st.campaign_count < u64::MAX,
    ensures
        ledger_consistent(create_campaign_outcome(st, caller, title, target_amount).0),
{
    let post = create_campaign_outcome(st, caller, title, target_amount).0;
    let new_id = (st.campaign_count + 1) as u64;
    assert(investors_of(st, new_id) =~= Set::empty());
    assert(positive_investors(st, new_id) =~= Set::empty());
    assert forall|i: u64| #[trigger] investors_of(post, i).finite() by {
        assert(investors_of(post, i) =~= investors_of(st, i));
    }
    assert forall|i: u64| #[trigger] post.campaigns.contains_key(i) implies post.campaigns[i].raised_amount
        == invested_total(post, i) && post.campaigns[i].investor_count == positive_investors(
        post,
        i,
    ).len() by {
        assert(investors_of(post, i) =~= investors_of(st, i));
        assert(investment_amounts(post, i) =~= investment_amounts(st, i));
        assert(positive_investors(post, i) =~= positive_investors(st, i));
    }
}

proof fn lemma_buy_keeps_ledger(st: CrowdfundingState, caller: AccountId, listing_id: u64)
    requires
        ledger_consistent(st),
    ensures
        ledger_consistent(buy_shares_outcome(st, caller, listing_id).0),
{
    let post = buy_shares_outcome(st, caller, listing_id).0;
    if st.listings.contains_key(listing_id) {
        let l = st.listings[listing_id];
        assert forall|i: u64| #[trigger] holders_of(post.share_holdings, i).finite() by {
            if i == l.campaign_id {
                assert(holders_of(post.share_holdings, i) =~= holders_of(st.share_holdings, i).insert(
                    l.seller,
                ).insert(caller));
            } else {
                assert(holders_of(post.share_holdings, i) =~= holders_of(st.share_holdings, i));
            }
        }
        assert forall|i: u64| #[trigger] investors_of(post, i).finite() by {
            assert(investors_of(post, i) =~= investors_of(st, i));
        }
        assert forall|i: u64| #[trigger] post.campaigns.contains_key(i) implies post.campaigns[i].raised_amount
            == invested_total(post, i) && post.campaigns[i].investor_count == positive_investors(
            post,
            i,
        ).len() by {
            assert(investors_of(post, i) =~= investors_of(st, i));
            assert(investment_amounts(post, i) =~= investment_amounts(st, i));
            assert(positive_investors(post, i) =~= positive_investors(st, i));
        }
    }
}

/// The books balance in every reachable state: a campaign's raised amount is
/// the sum of the recorded investments over all accounts, and its investor
/// count is the number of accounts with a positive investment. (An accepted
/// investment of 0 by a new investor counts them without making their
/// investment positive, so accepted investments of 0 are left out.)
pub proof fn lemma_requests_keep_ledger(st: CrowdfundingState, caller: AccountId, req: Request)
    requires
        well_formed(st),
        ledger_consistent(st),
        admissible(st, caller, req),
        req matches Request::Invest { amount, .. } ==> amount > 0 || handle(st, caller, req).1 is Err,
    ensures
        ledger_consistent(handle(st, caller, req).0),
{
    let post = handle(st, caller, req).0;
    match req {
        Request::Invest { campaign_id, amount } => {
            lemma_invest_keeps_ledger(st, caller, campaign_id, amount);
        },
        Request::CreateCampaign { title, target_amount } => {
            lemma_create_keeps_ledger(st, caller, title, target_amount);
        },
        Request::BuyShares { listing_id } => {
            lemma_buy_keeps_ledger(st, caller, listing_id);
        },
        _ => {
            assert forall|i: u64| #[trigger] investors_of(post, i).finite() by {
                assert(investors_of(post, i) =~= investors_of(st, i));
            }
            assert forall|i: u64| #[trigger] holders_of(post.share_holdings, i).finite() by {
                assert(holders_of(post.share_holdings, i) =~= holders_of(st.share_holdings, i));
            }
            assert forall|i: u64| #[trigger] post.campaigns.contains_key(i) implies post.campaigns[i].raised_amount
                == invested_total(post, i) && post.campaigns[i].investor_count
                == positive_investors(post, i).len() by {
                assert(investors_of(post, i) =~= investors_of(st, i));
                assert(investment_amounts(post, i) =~= investment_amounts(st, i));
                assert(positive_investors(post, i) =~= positive_investors(st, i));
            }
        },
    }
}


/// Buying a listing neither creates nor destroys shares: when the seller
/// still holds the listed shares and is not the buyer, the campaign's shares
/// summed over all accounts are unchanged (and so are every other campaign's),
/// and the listing is gone: buying it again is refused as `ListingNotFound`
/// and changes nothing.
pub proof fn lemma_buy_conserves_shares(st: CrowdfundingState, buyer: AccountId, listing_id: u64)
    requires
        st.listings.contains_key(listing_id),
        buy_fits(st, buyer, listing_id),
        buyer != st.listings[listing_id].seller,
        shares_in(st.share_holdings, st.listings[listing_id].campaign_id, st.listings[listing_id].seller)
            >= st.listings[listing_id].shares,
        holders_of(st.share_holdings, st.listings[listing_id].campaign_id).finite(),
    ensures
        ({
            let l = st.listings[listing_id];
            let post = buy_shares_outcome(st, buyer, listing_id).0;
            &&& shares_total(post.share_holdings, l.campaign_id) == shares_total(
                st.share_holdings,
                l.campaign_id,
            )
            &&& forall|c: u64|
                c != l.campaign_id ==> #[trigger] shares_total(post.share_holdings, c)
                    == shares_total(st.share_holdings, c)
            &&& buy_shares_outcome(post, buyer, listing_id) == (post, Err::<u128, CrowdfundingError>(
                CrowdfundingError::ListingNotFound,
            ))
        }),
{
    let l = st.listings[listing_id];
    let c = l.campaign_id;
    let post = buy_shares_outcome(st, buyer, listing_id).0;
    let s0 = holders_of(st.share_holdings, c);
    let s1 = holders_of(post.share_holdings, c);
    let f0 = share_amounts(st.share_holdings, c);
    let f1 = share_amounts(post.share_holdings, c);
    assert(s1 =~= s0.insert(l.seller).insert(buyer));
    lemma_total_split(s0, f0, buyer);
    lemma_total_split(s0.remove(buyer), f0, l.seller);
    lemma_total_split(s1, f1, buyer);
    lemma_total_split(s1.remove(buyer), f1, l.seller);
    assert(s1.remove(buyer).remove(l.seller) =~= s0.remove(buyer).remove(l.seller));
    assert forall|a: AccountId| s0.remove(buyer).remove(l.seller).contains(a) implies #[trigger] f1(
        a,
    ) == f0(a) by {}
    lemma_total_agree(s0.remove(buyer).remove(l.seller), f1, f0);
    assert forall|d: u64| d != c implies #[trigger] shares_total(post.share_holdings, d)
        == shares_total(st.share_holdings, d) by {
        assert(holders_of(post.share_holdings, d) =~= holders_of(st.share_holdings, d));
        assert(share_amounts(post.share_holdings, d) =~= share_amounts(st.share_holdings, d));
    }
}


/// A funded campaign takes no investment: `invest` on it is refused (as
/// `CampaignNotActive`, or `InvestorNotCompliant` when the investor check
/// fails first) and changes nothing.
pub proof fn lemma_funded_refuses_investment(
    st: CrowdfundingState,
    caller: AccountId,
    campaign_id: u64,
    amount: u128,
)
    requires
        st.campaigns.contains_key(campaign_id),
        st.campaigns[campaign_id].status == CampaignStatus::Funded,
    ensures
        invest_outcome(st, caller, campaign_id, amount).0 == st,
        invest_outcome(st, caller, campaign_id, amount).1 == Err::<(), CrowdfundingError>(
            CrowdfundingError::CampaignNotActive,
        ) || invest_outcome(st, caller, campaign_id, amount).1 == Err::<(), CrowdfundingError>(
            CrowdfundingError::InvestorNotCompliant,
        ),
{
}

/// A funded campaign stays funded until `activate_campaign` on it succeeds;
/// together with `lemma_funded_refuses_investment`, every investment in it
/// is refused until then.
pub proof fn lemma_funded_until_reactivated(
    st: CrowdfundingState,
    caller: AccountId,
    req: Request,
    campaign_id: u64,
)
    requires
        well_formed(st),
        admissible(st, caller, req),
        st.campaigns.contains_key(campaign_id),
        st.campaigns[campaign_id].status == CampaignStatus::Funded,
        !(req matches Request::ActivateCampaign { campaign_id: id } && id == campaign_id
            && handle(st, caller, req).1 is Ok),
    ensures
        handle(st, caller, req).0.campaigns.contains_key(campaign_id),
        handle(st, caller, req).0.campaigns[campaign_id].status == CampaignStatus::Funded,
{
    match req {
        Request::Invest { campaign_id: id, amount } => {
            if id == campaign_id {
                lemma_funded_refuses_investment(st, caller, id, amount);
            }
        },
        _ => {},
    }
}

/// No message closes or cancels a campaign: every stored campaign is a
/// draft, active or funded.
pub open spec fn campaigns_open(st: CrowdfundingState) -> bool {
    forall|id: u64| #[trigger]
        st.campaigns.contains_key(id) ==> st.campaigns[id].status != CampaignStatus::Closed
            && st.campaigns[id].status != CampaignStatus::Cancelled
}

/// Every request keeps the stored campaigns open (draft, active or funded).
pub proof fn lemma_requests_keep_campaigns_open(st: CrowdfundingState, caller: AccountId, req: Request)
    requires
        campaigns_open(st),
    ensures
        campaigns_open(handle(st, caller, req).0),
{
}

/// In a state where no campaign is closed or cancelled, the statistics
/// report 0 closed and 0 cancelled campaigns.
pub proof fn lemma_no_closed_or_cancelled(st: CrowdfundingState, ids: Seq<u64>)
    requires
        campaigns_open(st),
    ensures
        status_count(st, ids, CampaignStatus::Closed) == 0,
        status_count(st, ids, CampaignStatus::Cancelled) == 0,
    decreases ids.len(),
{
    if ids.len() > 0 {
        lemma_no_closed_or_cancelled(st, ids.drop_last());
    }
}

/// A freshly deployed contract has no closed or cancelled campaign.
pub proof fn lemma_initial_campaigns_open(admin: AccountId)
    ensures
        campaigns_open(initial_state(admin)),
{
}


/// A walk that can never reach its limit reports the same whatever the limit.
pub proof fn lemma_limit_beyond_reach(
    st: CrowdfundingState,
    ids: Seq<u64>,
    q: CampaignQuery,
    limit: nat,
    other: nat,
)
    requires
        limit >= ids.len(),
        other >= ids.len(),
    ensures
        picked(st, ids, q, limit) == picked(st, ids, q, other),
    decreases ids.len(),
{
    if ids.len() > 0 {
        let rest = ids.drop_first();
        lemma_limit_beyond_reach(st, rest, q, (limit - 1) as nat, (other - 1) as nat);
        lemma_limit_beyond_reach(st, rest, q, limit, other);
        lemma_limit_beyond_reach(st, rest, q, (limit - 1) as nat, other);
        lemma_limit_beyond_reach(st, rest, q, limit, (other - 1) as nat);
    }
}

/// Selects the summaries with the given risk rating.
pub open spec fn rated_as(rating: RiskRating) -> spec_fn(CampaignSummary) -> bool {
    |s: CampaignSummary| s.risk_rating == rating
}

/// The campaigns listed under a rating are exactly those of the full listing
/// that carry it, in the same order.
pub proof fn lemma_rated_listing_is_filter(st: CrowdfundingState, ids: Seq<u64>, rating: RiskRating)
    ensures
        listed(st, ids, CampaignQuery::RatedAs(rating)) == listed(st, ids, CampaignQuery::All).filter(
            rated_as(rating),
        ),
    decreases ids.len(),
{
    let q = CampaignQuery::RatedAs(rating);
    let n = ids.len();
    if n > 0 {
        let rest = ids.drop_first();
        lemma_rated_listing_is_filter(st, rest, rating);
        lemma_limit_beyond_reach(st, rest, q, n, (n - 1) as nat);
        lemma_limit_beyond_reach(st, rest, CampaignQuery::All, n, (n - 1) as nat);
        let all_rest = listed(st, rest, CampaignQuery::All);
        if candidate(st, CampaignQuery::All, ids[0]) {
            let s0 = summary_of(st, st.campaigns[ids[0]]);
            all_rest.lemma_filter_prepend(s0, rated_as(rating));
            assert(candidate(st, q, ids[0]));
            if rated_as(rating)(s0) {
                assert(listed(st, ids, q) =~= seq![s0] + listed(st, rest, q));
            } else {
                assert(listed(st, ids, q) == listed(st, rest, q));
            }
        } else {
            assert(!candidate(st, q, ids[0]));
        }
    } else {
        reveal_with_fuel(Seq::filter, 1);
    }
}

/// Every summary carries exactly one of the four ratings.
pub proof fn lemma_ratings_split(s: Seq<CampaignSummary>)
    ensures
        s.filter(rated_as(RiskRating::Low)).len() + s.filter(rated_as(RiskRating::Medium)).len()
            + s.filter(rated_as(RiskRating::High)).len() + s.filter(
            rated_as(RiskRating::Unrated),
        ).len() == s.len(),
    decreases s.len(),
{
    reveal_with_fuel(Seq::filter, 1);
    if s.len() > 0 {
        lemma_ratings_split(s.drop_last());
    }
}

/// When every id has a stored campaign, the full listing has one summary per id.
pub proof fn lemma_full_listing_length(st: CrowdfundingState, ids: Seq<u64>)
    requires
        forall|i: int| 0 <= i < ids.len() ==> st.campaigns.contains_key(#[trigger] ids[i]),
    ensures
        listed(st, ids, CampaignQuery::All).len() == ids.len(),
    decreases ids.len(),
{
    let n = ids.len();
    if n > 0 {
        let rest = ids.drop_first();
        assert forall|i: int| 0 <= i < rest.len() implies st.campaigns.contains_key(#[trigger] rest[i]) by {
            assert(rest[i] == ids[i + 1]);
        }
        assert(st.campaigns.contains_key(ids[0]));
        lemma_full_listing_length(st, rest);
    }
}

/// The listings by risk rating partition the campaigns: each is the full
/// listing cut down to one rating (campaigns never assessed are `Unrated`),
/// and in a well-formed state the four together hold every campaign once.
pub proof fn lemma_risk_listings_partition(st: CrowdfundingState)
    requires
        well_formed(st),
    ensures
        forall|rating: RiskRating|
            #[trigger] listed(st, st.campaign_ids, CampaignQuery::RatedAs(rating)) == listed(
                st,
                st.campaign_ids,
                CampaignQuery::All,
            ).filter(rated_as(rating)),
        listed(st, st.campaign_ids, CampaignQuery::RatedAs(RiskRating::Low)).len() + listed(
            st,
            st.campaign_ids,
            CampaignQuery::RatedAs(RiskRating::Medium),
        ).len() + listed(st, st.campaign_ids, CampaignQuery::RatedAs(RiskRating::High)).len()
            + listed(st, st.campaign_ids, CampaignQuery::RatedAs(RiskRating::Unrated)).len()
            == st.campaign_count,
{
    let ids = st.campaign_ids;
    assert forall|rating: RiskRating|
        #[trigger] listed(st, ids, CampaignQuery::RatedAs(rating)) == listed(
            st,
            ids,
            CampaignQuery::All,
        ).filter(rated_as(rating)) by {
        lemma_rated_listing_is_filter(st, ids, rating);
    }
    lemma_ratings_split(listed(st, ids, CampaignQuery::All));
    assert forall|i: int| 0 <= i < ids.len() implies st.campaigns.contains_key(#[trigger] ids[i]) by {
        assert(ids[i] == i + 1);
    }
    lemma_full_listing_length(st, ids);
}

} // verus!
