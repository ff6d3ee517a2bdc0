use vstd::prelude::*;

use crate::account::AccountId;
use crate::discovery::{
    candidate, capped, listed, page_window, picked, reports, status_count, status_counts, summary_of,
    CampaignQuery,
};
use crate::laws::lemma_query_results;
use crate::text::{lowercase, occurs_in};
use crate::laws::lemma_limit_beyond_reach;
use crate::rules::{
    activate_campaign_outcome, add_milestone_outcome, approve_milestone_outcome,
    assess_risk_outcome, buy_fits, buy_shares_outcome, create_campaign_outcome,
    create_proposal_outcome, finalize_proposal_outcome, invest_fits, invest_outcome,
    list_shares_outcome, onboard_investor_outcome, profit_share, release_milestone_outcome,
    vote_fits, vote_outcome, CrowdfundingState,
};
use crate::types::{
    Campaign, CampaignFilter, CampaignSummary, CampaignCreated, CampaignStatus, ComplianceStatus, CrowdfundingError, Event,
    InvestmentMade, InvestorProfile, Milestone, MilestoneApproved, MilestoneStatus, Proposal,
    ProposalCreated, ProposalStatus, RiskRating, ShareListing, SharesListed,
};

verus! {

/// Every accepted investment buys one share per 1 000 invested (kept to 64
/// bits), added to what the investor already held, whether or not they had
/// invested before.
pub proof fn lemma_every_investment_buys_shares(
    st: CrowdfundingState,
    caller: AccountId,
    campaign_id: u64,
    amount: u128,
)
    requires
        invest_fits(st, caller, campaign_id, amount),
        invest_outcome(st, caller, campaign_id, amount).1 is Ok,
    ensures
        ({
            let post = invest_outcome(st, caller, campaign_id, amount).0;
            let key = (campaign_id, caller);
            let before: int = if st.share_holdings.contains_key(key) {
                st.share_holdings[key] as int
            } else {
                0
            };
            &&& post.share_holdings.contains_key(key)
            &&& post.share_holdings[key] == before + (amount / 1000) as u64
            &&& forall|k: (u64, AccountId)|
                k != key ==> (#[trigger] post.share_holdings.contains_key(k)
                    == st.share_holdings.contains_key(k) && post.share_holdings[k]
                    == st.share_holdings[k])
        }),
{
}

/// `invest` is accepted exactly when the caller is onboarded with approved
/// KYC from a jurisdiction that is not blocked, and the campaign exists and
/// is active; an accepted investment adds the amount to the campaign's
/// raised amount and to the caller's investment, counts the caller as a new
/// investor exactly when they had no positive investment before, and makes
/// the campaign funded exactly when it reaches its target.
pub proof fn lemma_invest_behaviour(st: CrowdfundingState, caller: AccountId, campaign_id: u64, amount: u128)
    requires
        invest_fits(st, caller, campaign_id, amount),
    ensures
        ({
            let (post, r) = invest_outcome(st, caller, campaign_id, amount);
            let key = (campaign_id, caller);
            let accepted = st.investor_profiles.contains_key(caller)
                && st.investor_profiles[caller].kyc_status == ComplianceStatus::Approved
                && !(exists|i: int|
                0 <= i < st.blocked_jurisdictions.len() && #[trigger] st.blocked_jurisdictions[i]@
                    == st.investor_profiles[caller].jurisdiction@) && st.campaigns.contains_key(
                campaign_id,
            ) && st.campaigns[campaign_id].status == CampaignStatus::Active;
            let had: int = if st.investments.contains_key(key) {
                st.investments[key] as int
            } else {
                0
            };
            &&& (r is Ok) == accepted
            &&& !accepted ==> post == st
            &&& accepted ==> {
                let before = st.campaigns[campaign_id];
                let after = post.campaigns[campaign_id];
                &&& post.investments.contains_key(key)
                &&& post.investments[key] == had + amount
                &&& after.raised_amount == before.raised_amount + amount
                &&& after.investor_count == before.investor_count + if had == 0 {
                    1int
                } else {
                    0int
                }
                &&& after.status == (if after.raised_amount >= before.target_amount {
                    CampaignStatus::Funded
                } else {
                    CampaignStatus::Active
                })
                &&& after.target_amount == before.target_amount
                &&& after.creator == before.creator
                &&& post.events == st.events.push(
                    Event::InvestmentMade(InvestmentMade { campaign_id, investor: caller, amount }),
                )
            }
        }),
{
}

/// The risk rating follows the published thresholds: Low exactly when the
/// loan-to-value ratio is under 60, the developer score at least 75 and the
/// volatility under 15; otherwise Medium exactly when they are under 80, at
/// least 50 and under 30; otherwise High. Only the admin may rate, and the
/// profile keeps the figures it was given.
pub proof fn lemma_risk_rating_thresholds(
    st: CrowdfundingState,
    caller: AccountId,
    campaign_id: u64,
    ltv: u32,
    dev_score: u32,
    volatility: u32,
)
    ensures
        ({
            let (post, r) = assess_risk_outcome(st, caller, campaign_id, ltv, dev_score, volatility);
            let low = ltv < 60 && dev_score >= 75 && volatility < 15;
            let medium = !low && ltv < 80 && dev_score >= 50 && volatility < 30;
            &&& (r is Ok) == (caller == st.admin)
            &&& caller != st.admin ==> post == st
            &&& caller == st.admin ==> {
                let p = post.risk_profiles[campaign_id];
                &&& post.risk_profiles.contains_key(campaign_id)
                &&& p.campaign_id == campaign_id
                &&& p.ltv_ratio == ltv
                &&& p.developer_score == dev_score
                &&& p.market_volatility == volatility
                &&& (p.rating == RiskRating::Low) == low
                &&& (p.rating == RiskRating::Medium) == medium
                &&& (p.rating == RiskRating::High) == (!low && !medium)
                &&& post.events == st.events
            }
        }),
{
}

/// Votes are counted per proposal and account: an account that has not
/// voted on an active proposal may vote on it, whatever it did on other
/// proposals; its weight (1 unless set for the campaign) is added to the
/// chosen side, the vote is recorded for that proposal alone, and a vote
/// already recorded for this proposal and account is refused.
pub proof fn lemma_votes_per_proposal(st: CrowdfundingState, caller: AccountId, proposal_id: u64, in_favour: bool)
    requires
        vote_fits(st, caller, proposal_id, in_favour),
    ensures
        ({
            let (post, r) = vote_outcome(st, caller, proposal_id, in_favour);
            let key = (proposal_id, caller);
            let voted = st.votes_cast.contains_key(key) && st.votes_cast[key];
            &&& voted ==> r == Err::<(), CrowdfundingError>(CrowdfundingError::AlreadyVoted) && post == st
            &&& (!voted && st.proposals.contains_key(proposal_id) && st.proposals[proposal_id].status
                == ProposalStatus::Active) ==> {
                let p = st.proposals[proposal_id];
                let wkey = (p.campaign_id, caller);
                let w: int = if st.voting_weights.contains_key(wkey) {
                    st.voting_weights[wkey] as int
                } else {
                    1
                };
                let q = post.proposals[proposal_id];
                &&& r is Ok
                &&& q.votes_for == p.votes_for + if in_favour {
                    w
                } else {
                    0
                }
                &&& q.votes_against == p.votes_against + if in_favour {
                    0
                } else {
                    w
                }
                &&& q.status == p.status
                &&& q.campaign_id == p.campaign_id
                &&& post.votes_cast.contains_key(key) && post.votes_cast[key]
                &&& post.events == st.events
                &&& forall|k: (u64, AccountId)|
                    k != key ==> (#[trigger] post.votes_cast.contains_key(k)
                        == st.votes_cast.contains_key(k) && post.votes_cast[k] == st.votes_cast[k])
                &&& forall|id: u64|
                    id != proposal_id ==> (#[trigger] post.proposals.contains_key(id)
                        == st.proposals.contains_key(id) && post.proposals[id] == st.proposals[id])
            }
        }),
{
}

/// The funding percentage of a campaign, as the queries report it.
pub open spec fn percent_funded(raised: u128, target: u128) -> u32 {
    if target == 0 {
        0
    } else {
        ((raised * 100) / (target as int)) as u32
    }
}

/// A walk that cannot reach its limit reports every campaign that the query
/// looks at and that meets it.
proof fn lemma_listed_complete(st: CrowdfundingState, ids: Seq<u64>, q: CampaignQuery, i: int)
    requires
        0 <= i < ids.len(),
        crate::discovery::candidate(st, q, ids[i]),
        crate::discovery::reports(q, summary_of(st, st.campaigns[ids[i]])),
    ensures
        listed(st, ids, q).contains(summary_of(st, st.campaigns[ids[i]])),
    decreases ids.len(),
{
    let n = ids.len();
    let rest = ids.drop_first();
    let first_in = crate::discovery::candidate(st, q, ids[0]) && crate::discovery::reports(
        q,
        summary_of(st, st.campaigns[ids[0]]),
    );
    lemma_limit_beyond_reach(st, rest, q, n, (n - 1) as nat);
    if i == 0 {
        assert(listed(st, ids, q)[0] == summary_of(st, st.campaigns[ids[0]]));
    } else {
        assert(rest[i - 1] == ids[i]);
        lemma_listed_complete(st, rest, q, i - 1);
        let s = summary_of(st, st.campaigns[ids[i]]);
        let k = choose|k: int| 0 <= k < listed(st, rest, q).len() && listed(st, rest, q)[k] == s;
        if first_in {
            assert(listed(st, ids, q)[k + 1] == s);
        } else {
            assert(listed(st, ids, q)[k] == s);
        }
    }
}

/// What the near-funded listing holds: only active campaigns funded to at
/// least the threshold, and every stored active campaign funded to at least
/// the threshold.
pub proof fn lemma_near_funded_listing(st: CrowdfundingState, ids: Seq<u64>, threshold: u32)
    ensures
        forall|k: int|
            0 <= k < listed(st, ids, CampaignQuery::NearFunded(threshold)).len() ==> {
                let s = #[trigger] listed(st, ids, CampaignQuery::NearFunded(threshold))[k];
                &&& s.status == CampaignStatus::Active
                &&& s.funded_pct >= threshold
                &&& s.funded_pct == percent_funded(s.raised_amount, s.target_amount)
            },
        forall|i: int|
            0 <= i < ids.len() && st.campaigns.contains_key(#[trigger] ids[i])
                && st.campaigns[ids[i]].status == CampaignStatus::Active && percent_funded(
                st.campaigns[ids[i]].raised_amount,
                st.campaigns[ids[i]].target_amount,
            ) >= threshold ==> listed(st, ids, CampaignQuery::NearFunded(threshold)).contains(
                summary_of(st, st.campaigns[ids[i]]),
            ),
{
    let q = CampaignQuery::NearFunded(threshold);
    crate::laws::lemma_query_results(st, ids, q, ids.len());
    assert forall|k: int| 0 <= k < listed(st, ids, q).len() implies {
        let s = #[trigger] listed(st, ids, q)[k];
        &&& s.status == CampaignStatus::Active
        &&& s.funded_pct >= threshold
        &&& s.funded_pct == percent_funded(s.raised_amount, s.target_amount)
    } by {
        let i = choose|i: int|
            0 <= i < ids.len() && crate::discovery::candidate(st, q, #[trigger] ids[i])
                && listed(st, ids, q)[k] == summary_of(st, st.campaigns[ids[i]]);
    }
    assert forall|i: int|
        0 <= i < ids.len() && st.campaigns.contains_key(#[trigger] ids[i])
            && st.campaigns[ids[i]].status == CampaignStatus::Active && percent_funded(
            st.campaigns[ids[i]].raised_amount,
            st.campaigns[ids[i]].target_amount,
        ) >= threshold implies listed(st, ids, q).contains(summary_of(st, st.campaigns[ids[i]])) by {
        lemma_listed_complete(st, ids, q, i);
    }
}


/// `create_campaign` stores a draft campaign of the caller under the next id,
/// lists the id last, and emits `CampaignCreated`.
pub proof fn lemma_create_campaign_behaviour(
    st: CrowdfundingState,
    caller: AccountId,
    title: String,
    target_amount: u128,
)
    requires
        st.campaign_count < u64::MAX,
    ensures
        ({
            let (post, r) = create_campaign_outcome(st, caller, title, target_amount);
            let id = st.campaign_count + 1;
            &&& r == Ok::<u64, CrowdfundingError>(id as u64)
            &&& post.campaign_count == id
            &&& post.campaign_ids == st.campaign_ids.push(id as u64)
            &&& post.campaigns.contains_key(id as u64)
            &&& post.campaigns[id as u64] == (Campaign {
                campaign_id: id as u64,
                creator: caller,
                title,
                target_amount,
                raised_amount: 0,
                status: CampaignStatus::Draft,
                investor_count: 0,
            })
            &&& forall|c: u64| c != id ==> (#[trigger] post.campaigns.contains_key(c)
                == st.campaigns.contains_key(c) && post.campaigns[c] == st.campaigns[c])
            &&& post.events == st.events.push(
                Event::CampaignCreated(
                    CampaignCreated { campaign_id: id as u64, creator: caller, target_amount },
                ),
            )
        }),
{
}

/// `activate_campaign` succeeds exactly when the campaign exists and the
/// caller is its creator or the admin, and then only its status changes, to active.
pub proof fn lemma_activate_behaviour(st: CrowdfundingState, caller: AccountId, campaign_id: u64)
    ensures
        ({
            let (post, r) = activate_campaign_outcome(st, caller, campaign_id);
            let ok = st.campaigns.contains_key(campaign_id) && (caller
                == st.campaigns[campaign_id].creator || caller == st.admin);
            &&& (r is Ok) == ok
            &&& !st.campaigns.contains_key(campaign_id) ==> r == Err::<(), CrowdfundingError>(
                CrowdfundingError::CampaignNotFound,
            )
            &&& (st.campaigns.contains_key(campaign_id) && !ok) ==> r == Err::<(), CrowdfundingError>(
                CrowdfundingError::Unauthorized,
            )
            &&& !ok ==> post == st
            &&& ok ==> post.campaigns == st.campaigns.insert(
                campaign_id,
                Campaign { status: CampaignStatus::Active, ..st.campaigns[campaign_id] },
            ) && post.events == st.events && post.investments == st.investments
        }),
{
}

/// `onboard_investor` records the caller as an approved investor, replacing
/// any earlier profile.
pub proof fn lemma_onboard_behaviour(
    st: CrowdfundingState,
    caller: AccountId,
    jurisdiction: String,
    accredited: bool,
)
    ensures
        ({
            let (post, r) = onboard_investor_outcome(st, caller, jurisdiction, accredited);
            &&& r is Ok
            &&& post.investor_profiles == st.investor_profiles.insert(
                caller,
                InvestorProfile {
                    investor: caller,
                    kyc_status: ComplianceStatus::Approved,
                    accredited,
                    jurisdiction,
                },
            )
            &&& post.campaigns == st.campaigns
            &&& post.investments == st.investments
            &&& post.events == st.events
        }),
{
}

/// `add_milestone`: only the creator or the admin of an existing campaign
/// adds a pending milestone, under the next milestone id.
pub proof fn lemma_add_milestone_behaviour(
    st: CrowdfundingState,
    caller: AccountId,
    campaign_id: u64,
    description: String,
    release_amount: u128,
)
    requires
        st.milestone_count < u64::MAX,
    ensures
        ({
            let (post, r) = add_milestone_outcome(st, caller, campaign_id, description, release_amount);
            let ok = st.campaigns.contains_key(campaign_id) && (caller
                == st.campaigns[campaign_id].creator || caller == st.admin);
            let id = (st.milestone_count + 1) as u64;
            &&& !st.campaigns.contains_key(campaign_id) ==> r == Err::<u64, CrowdfundingError>(
                CrowdfundingError::CampaignNotFound,
            )
            &&& (st.campaigns.contains_key(campaign_id) && !ok) ==> r == Err::<u64, CrowdfundingError>(
                CrowdfundingError::Unauthorized,
            )
            &&& !ok ==> post == st
            &&& ok ==> r == Ok::<u64, CrowdfundingError>(id) && post.milestone_count == id
                && post.milestones == st.milestones.insert(
                id,
                Milestone {
                    milestone_id: id,
                    campaign_id,
                    description,
                    release_amount,
                    status: MilestoneStatus::Pending,
                },
            ) && post.events == st.events
        }),
{
}

/// `approve_milestone`: only the admin approves, and an approved milestone
/// emits `MilestoneApproved` with its release amount; `release_milestone`
/// releases a milestone exactly when it is approved.
pub proof fn lemma_milestone_behaviour(st: CrowdfundingState, caller: AccountId, milestone_id: u64)
    ensures
        ({
            let (post, r) = approve_milestone_outcome(st, caller, milestone_id);
            &&& caller != st.admin ==> r == Err::<(), CrowdfundingError>(
                CrowdfundingError::Unauthorized,
            ) && post == st
            &&& (caller == st.admin && !st.milestones.contains_key(milestone_id)) ==> r == Err::<
                (),
                CrowdfundingError,
            >(CrowdfundingError::MilestoneNotFound) && post == st
            &&& (caller == st.admin && st.milestones.contains_key(milestone_id)) ==> {
                let m = st.milestones[milestone_id];
                &&& r is Ok
                &&& post.milestones == st.milestones.insert(
                    milestone_id,
                    Milestone { status: MilestoneStatus::Approved, ..m },
                )
                &&& post.events == st.events.push(
                    Event::MilestoneApproved(
                        MilestoneApproved { milestone_id, release_amount: m.release_amount },
                    ),
                )
            }
        }),
        ({
            let (post, r) = release_milestone_outcome(st, milestone_id);
            let ok = st.milestones.contains_key(milestone_id) && st.milestones[milestone_id].status
                == MilestoneStatus::Approved;
            &&& (r is Ok) == ok
            &&& !st.milestones.contains_key(milestone_id) ==> r == Err::<(), CrowdfundingError>(
                CrowdfundingError::MilestoneNotFound,
            )
            &&& !ok ==> post == st
            &&& ok ==> post.milestones == st.milestones.insert(
                milestone_id,
                Milestone { status: MilestoneStatus::Released, ..st.milestones[milestone_id] },
            ) && post.events == st.events
        }),
{
}

/// `create_proposal` opens an active proposal with no votes on an existing
/// campaign, under the next proposal id, and emits `ProposalCreated`.
pub proof fn lemma_create_proposal_behaviour(st: CrowdfundingState, campaign_id: u64, description: String)
    requires
        st.proposal_count < u64::MAX,
    ensures
        ({
            let (post, r) = create_proposal_outcome(st, campaign_id, description);
            let id = (st.proposal_count + 1) as u64;
            &&& !st.campaigns.contains_key(campaign_id) ==> r == Err::<u64, CrowdfundingError>(
                CrowdfundingError::CampaignNotFound,
            ) && post == st
            &&& st.campaigns.contains_key(campaign_id) ==> r == Ok::<u64, CrowdfundingError>(id)
                && post.proposal_count == id && post.proposals == st.proposals.insert(
                id,
                Proposal {
                    proposal_id: id,
                    campaign_id,
                    description,
                    votes_for: 0,
                    votes_against: 0,
                    status: ProposalStatus::Active,
                },
            ) && post.events == st.events.push(
                Event::ProposalCreated(ProposalCreated { proposal_id: id, campaign_id }),
            )
        }),
{
}

/// `finalize_proposal` records and returns Passed exactly when more votes
/// are for than against, Rejected otherwise; the tallies stay.
pub proof fn lemma_finalize_behaviour(st: CrowdfundingState, proposal_id: u64)
    ensures
        ({
            let (post, r) = finalize_proposal_outcome(st, proposal_id);
            &&& !st.proposals.contains_key(proposal_id) ==> r == Err::<
                ProposalStatus,
                CrowdfundingError,
            >(CrowdfundingError::ProposalNotFound) && post == st
            &&& st.proposals.contains_key(proposal_id) ==> {
                let p = st.proposals[proposal_id];
                let q = post.proposals[proposal_id];
                &&& r == Ok::<ProposalStatus, CrowdfundingError>(q.status)
                &&& (q.status == ProposalStatus::Passed) == (p.votes_for > p.votes_against)
                &&& (q.status == ProposalStatus::Rejected) == (p.votes_for <= p.votes_against)
                &&& q.votes_for == p.votes_for && q.votes_against == p.votes_against
                &&& q.campaign_id == p.campaign_id && q.description == p.description
                &&& post.votes_cast == st.votes_cast
                &&& post.events == st.events
            }
        }),
{
}

/// `list_shares` lists shares exactly when the caller holds at least that
/// many, under the next listing id, and emits `SharesListed`; holdings stay.
pub proof fn lemma_list_shares_behaviour(
    st: CrowdfundingState,
    caller: AccountId,
    campaign_id: u64,
    shares: u64,
    price_per_share: u128,
)
    requires
        st.listing_count < u64::MAX,
    ensures
        ({
            let (post, r) = list_shares_outcome(st, caller, campaign_id, shares, price_per_share);
            let key = (campaign_id, caller);
            let held: int = if st.share_holdings.contains_key(key) {
                st.share_holdings[key] as int
            } else {
                0
            };
            let id = (st.listing_count + 1) as u64;
            &&& held < shares ==> r == Err::<u64, CrowdfundingError>(
                CrowdfundingError::InsufficientShares,
            ) && post == st
            &&& held >= shares ==> r == Ok::<u64, CrowdfundingError>(id) && post.listing_count == id
                && post.listings == st.listings.insert(
                id,
                ShareListing { listing_id: id, seller: caller, campaign_id, shares, price_per_share },
            ) && post.share_holdings == st.share_holdings && post.events == st.events.push(
                Event::SharesListed(SharesListed { listing_id: id, seller: caller, shares }),
            )
        }),
{
}

/// `buy_shares` returns price times shares, takes the listed shares from
/// the seller (never below zero), then gives them to the buyer, and removes
/// the listing; an unknown listing is refused.
pub proof fn lemma_buy_shares_behaviour(st: CrowdfundingState, caller: AccountId, listing_id: u64)
    requires
        buy_fits(st, caller, listing_id),
    ensures
        ({
            let (post, r) = buy_shares_outcome(st, caller, listing_id);
            &&& !st.listings.contains_key(listing_id) ==> r == Err::<u128, CrowdfundingError>(
                CrowdfundingError::ListingNotFound,
            ) && post == st
            &&& st.listings.contains_key(listing_id) ==> {
                let l = st.listings[listing_id];
                let sk = (l.campaign_id, l.seller);
                let bk = (l.campaign_id, caller);
                let seller_had: int = if st.share_holdings.contains_key(sk) {
                    st.share_holdings[sk] as int
                } else {
                    0
                };
                let seller_left: int = if seller_had >= l.shares {
                    seller_had - l.shares
                } else {
                    0
                };
                let buyer_had: int = if bk == sk {
                    seller_left
                } else if st.share_holdings.contains_key(bk) {
                    st.share_holdings[bk] as int
                } else {
                    0
                };
                &&& r matches Ok(cost) && cost == l.price_per_share * l.shares
                &&& post.share_holdings.contains_key(bk)
                &&& post.share_holdings[bk] == buyer_had + l.shares
                &&& bk != sk ==> post.share_holdings.contains_key(sk) && post.share_holdings[sk]
                    == seller_left
                &&& forall|k: (u64, AccountId)|
                    k != sk && k != bk ==> (#[trigger] post.share_holdings.contains_key(k)
                        == st.share_holdings.contains_key(k) && post.share_holdings[k]
                        == st.share_holdings[k])
                &&& post.listings == st.listings.remove(listing_id)
                &&& post.events == st.events
            }
        }),
{
}

/// `distribute_profit` pays the investor the floor of
/// `total_profit * investment / target`, and 0 for an unknown campaign or a
/// target of 0.
pub proof fn lemma_profit_share_behaviour(
    st: CrowdfundingState,
    campaign_id: u64,
    total_profit: u128,
    investor: AccountId,
)
    requires
        st.campaigns.contains_key(campaign_id) && st.campaigns[campaign_id].target_amount != 0
            ==> total_profit * (if st.investments.contains_key((campaign_id, investor)) {
            st.investments[(campaign_id, investor)] as int
        } else {
            0
        }) <= u128::MAX,
    ensures
        ({
            let r = profit_share(st, campaign_id, total_profit, investor);
            let inv: int = if st.investments.contains_key((campaign_id, investor)) {
                st.investments[(campaign_id, investor)] as int
            } else {
                0
            };
            &&& (!st.campaigns.contains_key(campaign_id) || st.campaigns[campaign_id].target_amount
                == 0) ==> r == 0
            &&& (st.campaigns.contains_key(campaign_id) && st.campaigns[campaign_id].target_amount
                != 0) ==> r * st.campaigns[campaign_id].target_amount <= total_profit * inv
                < (r + 1) * st.campaigns[campaign_id].target_amount
        }),
{
    if st.campaigns.contains_key(campaign_id) && st.campaigns[campaign_id].target_amount != 0 {
        let t = st.campaigns[campaign_id].target_amount as int;
        let inv: int = if st.investments.contains_key((campaign_id, investor)) {
            st.investments[(campaign_id, investor)] as int
        } else {
            0
        };
        let x = total_profit * inv;
        let q = x / t;
        assert(0 <= x);
        assert(q * t <= x < (q + 1) * t) by (nonlinear_arith)
            requires
                t > 0,
                x >= 0,
                q == x / t,
        ;
        assert(0 <= q <= x) by (nonlinear_arith)
            requires
                t > 0,
                x >= 0,
                q == x / t,
        ;
    }
}


/// What a summary reports of a campaign: its own fields, the rating recorded
/// for it (`Unrated` when none is), and the whole percentage it is funded to
/// (0 for a zero target).
pub proof fn lemma_summary_fields(st: CrowdfundingState, c: Campaign)
    ensures
        ({
            let s = summary_of(st, c);
            &&& s.campaign_id == c.campaign_id
            &&& s.creator == c.creator
            &&& s.title == c.title
            &&& s.target_amount == c.target_amount
            &&& s.raised_amount == c.raised_amount
            &&& s.status == c.status
            &&& s.investor_count == c.investor_count
            &&& s.risk_rating == (if st.risk_profiles.contains_key(c.campaign_id) {
                st.risk_profiles[c.campaign_id].rating
            } else {
                RiskRating::Unrated
            })
            &&& c.target_amount == 0 ==> s.funded_pct == 0
            &&& (c.target_amount != 0 && c.raised_amount * 100 < (u32::MAX as int + 1)
                * c.target_amount) ==> s.funded_pct * c.target_amount <= c.raised_amount * 100
                < (s.funded_pct + 1) * c.target_amount
        }),
{
    if c.target_amount != 0 {
        let t = c.target_amount as int;
        let x = c.raised_amount * 100;
        let q = x / t;
        assert(q * t <= x < (q + 1) * t) by (nonlinear_arith)
            requires
                t > 0,
                x >= 0,
                q == x / t,
        ;
        if x < (u32::MAX as int + 1) * t {
            assert(q <= u32::MAX) by (nonlinear_arith)
                requires
                    t > 0,
                    x >= 0,
                    q == x / t,
                    x < (u32::MAX as int + 1) * t,
            ;
        }
    }
}

/// Queries report at most 50 results: the cap on a requested count is the
/// count itself up to 50, and 50 beyond.
pub proof fn lemma_results_capped_at_fifty(n: u64)
    ensures
        capped(n) <= 50,
        n <= 50 ==> capped(n) == n,
        n >= 50 ==> capped(n) == 50,
{
}

/// A walk that stops short of its limit reports every campaign that the
/// query looks at and that meets it.
pub proof fn lemma_picked_complete(st: CrowdfundingState, ids: Seq<u64>, q: CampaignQuery, limit: nat, i: int)
    requires
        0 <= i < ids.len(),
        candidate(st, q, ids[i]),
        reports(q, summary_of(st, st.campaigns[ids[i]])),
        picked(st, ids, q, limit).len() < limit,
    ensures
        picked(st, ids, q, limit).contains(summary_of(st, st.campaigns[ids[i]])),
    decreases ids.len(),
{
    let rest = ids.drop_first();
    let first_in = candidate(st, q, ids[0]) && reports(q, summary_of(st, st.campaigns[ids[0]]));
    if i == 0 {
        assert(picked(st, ids, q, limit)[0] == summary_of(st, st.campaigns[ids[0]]));
    } else {
        assert(rest[i - 1] == ids[i]);
        let s = summary_of(st, st.campaigns[ids[i]]);
        if first_in {
            lemma_picked_complete(st, rest, q, (limit - 1) as nat, i - 1);
            let k = choose|k: int|
                #![trigger picked(st, rest, q, (limit - 1) as nat)[k]]
                0 <= k < picked(st, rest, q, (limit - 1) as nat).len() && picked(
                    st,
                    rest,
                    q,
                    (limit - 1) as nat,
                )[k] == s;
            assert(picked(st, ids, q, limit)[k + 1] == s);
        } else {
            lemma_picked_complete(st, rest, q, limit, i - 1);
        }
    }
}

/// Campaigns by creator: exactly the stored campaigns of that creator.
pub proof fn lemma_creator_listing(st: CrowdfundingState, ids: Seq<u64>, creator: AccountId)
    ensures
        forall|k: int|
            0 <= k < listed(st, ids, CampaignQuery::CreatedBy(creator)).len() ==> (#[trigger] listed(
                st,
                ids,
                CampaignQuery::CreatedBy(creator),
            )[k]).creator == creator,
        forall|i: int|
            0 <= i < ids.len() && st.campaigns.contains_key(#[trigger] ids[i])
                && st.campaigns[ids[i]].creator == creator ==> listed(
                st,
                ids,
                CampaignQuery::CreatedBy(creator),
            ).contains(summary_of(st, st.campaigns[ids[i]])),
{
    let q = CampaignQuery::CreatedBy(creator);
    lemma_query_results(st, ids, q, ids.len());
    assert forall|k: int| 0 <= k < listed(st, ids, q).len() implies (#[trigger] listed(
        st,
        ids,
        q,
    )[k]).creator == creator by {
        let i = choose|i: int|
            0 <= i < ids.len() && candidate(st, q, #[trigger] ids[i]) && listed(st, ids, q)[k]
                == summary_of(st, st.campaigns[ids[i]]);
    }
    assert forall|i: int|
        0 <= i < ids.len() && st.campaigns.contains_key(#[trigger] ids[i])
            && st.campaigns[ids[i]].creator == creator implies listed(st, ids, q).contains(
        summary_of(st, st.campaigns[ids[i]]),
    ) by {
        lemma_listed_complete(st, ids, q, i);
    }
}

/// An investor's campaigns: exactly the stored campaigns in which the
/// investor has a positive investment.
pub proof fn lemma_investor_listing(st: CrowdfundingState, ids: Seq<u64>, investor: AccountId)
    ensures
        forall|k: int|
            0 <= k < listed(st, ids, CampaignQuery::InvestedBy(investor)).len() ==> exists|i: int|
                0 <= i < ids.len() && st.campaigns.contains_key(#[trigger] ids[i])
                    && st.investments.contains_key((ids[i], investor)) && st.investments[(
                    ids[i],
                    investor,
                )] > 0 && #[trigger] listed(st, ids, CampaignQuery::InvestedBy(investor))[k]
                    == summary_of(st, st.campaigns[ids[i]]),
        forall|i: int|
            0 <= i < ids.len() && st.campaigns.contains_key(#[trigger] ids[i])
                && st.investments.contains_key((ids[i], investor)) && st.investments[(
                ids[i],
                investor,
            )] > 0 ==> listed(st, ids, CampaignQuery::InvestedBy(investor)).contains(
                summary_of(st, st.campaigns[ids[i]]),
            ),
{
    let q = CampaignQuery::InvestedBy(investor);
    lemma_query_results(st, ids, q, ids.len());
    assert forall|i: int|
        0 <= i < ids.len() && st.campaigns.contains_key(#[trigger] ids[i])
            && st.investments.contains_key((ids[i], investor)) && st.investments[(
            ids[i],
            investor,
        )] > 0 implies listed(st, ids, q).contains(summary_of(st, st.campaigns[ids[i]])) by {
        lemma_listed_complete(st, ids, q, i);
    }
}

/// Campaigns by rating: exactly the stored campaigns whose recorded rating
/// (`Unrated` when none is recorded) is the one asked for.
pub proof fn lemma_rating_listing(st: CrowdfundingState, ids: Seq<u64>, rating: RiskRating)
    ensures
        forall|k: int|
            0 <= k < listed(st, ids, CampaignQuery::RatedAs(rating)).len() ==> (#[trigger] listed(
                st,
                ids,
                CampaignQuery::RatedAs(rating),
            )[k]).risk_rating == rating,
        forall|i: int|
            0 <= i < ids.len() && st.campaigns.contains_key(#[trigger] ids[i]) && (if st.risk_profiles.contains_key(
                st.campaigns[ids[i]].campaign_id,
            ) {
                st.risk_profiles[st.campaigns[ids[i]].campaign_id].rating
            } else {
                RiskRating::Unrated
            }) == rating ==> listed(st, ids, CampaignQuery::RatedAs(rating)).contains(
                summary_of(st, st.campaigns[ids[i]]),
            ),
{
    let q = CampaignQuery::RatedAs(rating);
    lemma_query_results(st, ids, q, ids.len());
    assert forall|i: int|
        0 <= i < ids.len() && st.campaigns.contains_key(#[trigger] ids[i]) && (if st.risk_profiles.contains_key(
            st.campaigns[ids[i]].campaign_id,
        ) {
            st.risk_profiles[st.campaigns[ids[i]].campaign_id].rating
        } else {
            RiskRating::Unrated
        }) == rating implies listed(st, ids, q).contains(summary_of(st, st.campaigns[ids[i]])) by {
        lemma_listed_complete(st, ids, q, i);
    }
}

/// Whether a summary meets every criterion the filter sets: the status, a
/// keyword occurring in the title when both are lower-cased, the target
/// bounds (inclusive), the minimum funding percentage, and "funded only".
pub open spec fn meets(s: CampaignSummary, f: CampaignFilter) -> bool {
    &&& (f.status is Some ==> s.status == f.status->0)
    &&& (f.title_keyword is Some ==> exists|j: int|
        0 <= j && j + lowercase(f.title_keyword->0@).len() <= lowercase(s.title@).len()
            && #[trigger] lowercase(s.title@).subrange(j, j + lowercase(f.title_keyword->0@).len())
            == lowercase(f.title_keyword->0@))
    &&& (f.min_target is Some ==> s.target_amount >= f.min_target->0)
    &&& (f.max_target is Some ==> s.target_amount <= f.max_target->0)
    &&& (f.min_funded_pct is Some ==> s.funded_pct >= f.min_funded_pct->0)
    &&& (f.funded_only ==> s.status == CampaignStatus::Funded)
}

/// A search reports at most `limit` campaigns, each meeting the filter, in
/// creation order; when it reports fewer than `limit`, it reports every
/// stored campaign that meets the filter.
pub proof fn lemma_search_listing(st: CrowdfundingState, ids: Seq<u64>, f: CampaignFilter, limit: nat)
    ensures
        picked(st, ids, CampaignQuery::Matching(f), limit).len() <= limit,
        forall|k: int|
            0 <= k < picked(st, ids, CampaignQuery::Matching(f), limit).len() ==> meets(
                #[trigger] picked(st, ids, CampaignQuery::Matching(f), limit)[k],
                f,
            ),
        picked(st, ids, CampaignQuery::Matching(f), limit).len() < limit ==> forall|i: int|
            0 <= i < ids.len() && st.campaigns.contains_key(#[trigger] ids[i]) && meets(
                summary_of(st, st.campaigns[ids[i]]),
                f,
            ) ==> picked(st, ids, CampaignQuery::Matching(f), limit).contains(
                summary_of(st, st.campaigns[ids[i]]),
            ),
{
    let q = CampaignQuery::Matching(f);
    lemma_query_results(st, ids, q, limit);
    assert forall|k: int| 0 <= k < picked(st, ids, q, limit).len() implies meets(
        #[trigger] picked(st, ids, q, limit)[k],
        f,
    ) by {
        let s = picked(st, ids, q, limit)[k];
        assert(reports(q, s));
        if f.title_keyword is Some {
            let j = choose|j: int|
                0 <= j <= lowercase(s.title@).len() - lowercase(f.title_keyword->0@).len()
                    && #[trigger] lowercase(s.title@).subrange(
                    j,
                    j + lowercase(f.title_keyword->0@).len(),
                ) == lowercase(f.title_keyword->0@);
        }
    }
    if picked(st, ids, q, limit).len() < limit {
        assert forall|i: int|
            0 <= i < ids.len() && st.campaigns.contains_key(#[trigger] ids[i]) && meets(
                summary_of(st, st.campaigns[ids[i]]),
                f,
            ) implies picked(st, ids, q, limit).contains(summary_of(st, st.campaigns[ids[i]])) by {
            let s = summary_of(st, st.campaigns[ids[i]]);
            if f.title_keyword is Some {
                let j = choose|j: int|
                    0 <= j && j + lowercase(f.title_keyword->0@).len() <= lowercase(s.title@).len()
                        && #[trigger] lowercase(s.title@).subrange(
                        j,
                        j + lowercase(f.title_keyword->0@).len(),
                    ) == lowercase(f.title_keyword->0@);
                assert(occurs_in(lowercase(f.title_keyword->0@), lowercase(s.title@)));
            }
            lemma_picked_complete(st, ids, q, limit, i);
        }
    }
}

/// A page holds the stored campaigns at positions `page * size` up to
/// `(page + 1) * size` of the campaign list, and no others.
pub proof fn lemma_page_listing(st: CrowdfundingState, ids: Seq<u64>, page: u64, size: u64)
    requires
        page * size <= u64::MAX,
        page * size <= usize::MAX,
    ensures
        forall|k: int|
            0 <= k < listed(st, page_window(ids, page, size), CampaignQuery::All).len() ==> exists|
                i: int,
            |
                page * size <= i < (page + 1) * size && 0 <= i < ids.len()
                    && st.campaigns.contains_key(#[trigger] ids[i]) && #[trigger] listed(
                    st,
                    page_window(ids, page, size),
                    CampaignQuery::All,
                )[k] == summary_of(st, st.campaigns[ids[i]]),
        forall|i: int|
            page * size <= i < (page + 1) * size && 0 <= i < ids.len() && st.campaigns.contains_key(
                #[trigger] ids[i],
            ) ==> listed(st, page_window(ids, page, size), CampaignQuery::All).contains(
                summary_of(st, st.campaigns[ids[i]]),
            ),
{
    let w = page_window(ids, page, size);
    let start = page * size;
    assert((start as usize) as int == start);
    assert(0 <= page * size) by (nonlinear_arith);
    assert((page + 1) * size == page * size + size) by (nonlinear_arith);
    let lo = if start < ids.len() {
        start
    } else {
        ids.len() as int
    };
    lemma_query_results(st, w, CampaignQuery::All, w.len());
    assert forall|k: int| 0 <= k < listed(st, w, CampaignQuery::All).len() implies exists|i: int|
        page * size <= i < (page + 1) * size && 0 <= i < ids.len() && st.campaigns.contains_key(
            #[trigger] ids[i],
        ) && #[trigger] listed(st, w, CampaignQuery::All)[k] == summary_of(
            st,
            st.campaigns[ids[i]],
        ) by {
        let j = choose|j: int|
            0 <= j < w.len() && candidate(st, CampaignQuery::All, #[trigger] w[j]) && listed(
                st,
                w,
                CampaignQuery::All,
            )[k] == summary_of(st, st.campaigns[w[j]]);
        assert(w[j] == ids[lo + j]);
    }
    assert forall|i: int|
        page * size <= i < (page + 1) * size && 0 <= i < ids.len() && st.campaigns.contains_key(
            #[trigger] ids[i],
        ) implies listed(st, w, CampaignQuery::All).contains(summary_of(st, st.campaigns[ids[i]])) by {
        assert(w[i - lo] == ids[i]);
        lemma_listed_complete(st, w, CampaignQuery::All, i - lo);
    }
}

/// Whether the id has a stored campaign with the given status.
pub open spec fn stored_with_status(st: CrowdfundingState, status: CampaignStatus) -> spec_fn(u64) -> bool {
    |id: u64| st.campaigns.contains_key(id) && st.campaigns[id].status == status
}

/// Each count of the statistics is the number of listed ids whose stored
/// campaign has that status.
pub proof fn lemma_stats_count_by_status(st: CrowdfundingState, ids: Seq<u64>, status: CampaignStatus)
    ensures
        status_count(st, ids, status) == ids.filter(stored_with_status(st, status)).len(),
    decreases ids.len(),
{
    reveal_with_fuel(Seq::filter, 1);
    if ids.len() > 0 {
        lemma_stats_count_by_status(st, ids.drop_last(), status);
    }
}


/// A text occurs in another exactly when it is the run of characters
/// starting at some position of the other.
pub proof fn lemma_occurs_in_meaning(needle: Seq<char>, haystack: Seq<char>)
    ensures
        occurs_in(needle, haystack) == exists|j: int|
            0 <= j && j + needle.len() <= haystack.len() && #[trigger] haystack.subrange(
                j,
                j + needle.len(),
            ) == needle,
{
}


/// The statistics count, in order, the draft, active, funded, closed and
/// cancelled campaigns among the listed ids.
pub proof fn lemma_stats_in_order(st: CrowdfundingState, ids: Seq<u64>)
    ensures
        status_counts(st, ids) == (
            ids.filter(stored_with_status(st, CampaignStatus::Draft)).len(),
            ids.filter(stored_with_status(st, CampaignStatus::Active)).len(),
            ids.filter(stored_with_status(st, CampaignStatus::Funded)).len(),
            ids.filter(stored_with_status(st, CampaignStatus::Closed)).len(),
            ids.filter(stored_with_status(st, CampaignStatus::Cancelled)).len(),
        ),
{
    lemma_stats_count_by_status(st, ids, CampaignStatus::Draft);
    lemma_stats_count_by_status(st, ids, CampaignStatus::Active);
    lemma_stats_count_by_status(st, ids, CampaignStatus::Funded);
    lemma_stats_count_by_status(st, ids, CampaignStatus::Closed);
    lemma_stats_count_by_status(st, ids, CampaignStatus::Cancelled);
}

} // verus!
