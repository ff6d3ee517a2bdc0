use vstd::prelude::*;

use crate::account::AccountId;
use crate::types::{
    Campaign, CampaignCreated, CampaignStatus, ComplianceStatus, CrowdfundingError, Event,
    InvestmentMade, InvestorProfile, Milestone, MilestoneApproved, MilestoneStatus, Proposal,
    ProposalCreated, ProposalStatus, RiskProfile, RiskRating, ShareListing, SharesListed,
};

verus! {

/// The crowdfunding contract's storage, as mathematical values.
#[verifier::ext_equal]
pub struct CrowdfundingState {
    pub admin: AccountId,
    pub campaigns: Map<u64, Campaign>,
    pub campaign_count: u64,
    pub campaign_ids: Seq<u64>,
    pub investor_profiles: Map<AccountId, InvestorProfile>,
    pub investments: Map<(u64, AccountId), u128>,
    pub milestones: Map<u64, Milestone>,
    pub milestone_count: u64,
    pub proposals: Map<u64, Proposal>,
    pub proposal_count: u64,
    pub voting_weights: Map<(u64, AccountId), u64>,
    pub votes_cast: Map<(u64, AccountId), bool>,
    pub share_holdings: Map<(u64, AccountId), u64>,
    pub listings: Map<u64, ShareListing>,
    pub listing_count: u64,
    pub risk_profiles: Map<u64, RiskProfile>,
    pub blocked_jurisdictions: Seq<String>,
    /// Events emitted so far, oldest first.
    pub events: Seq<Event>,
}

/// The storage of a freshly deployed contract.
pub open spec fn initial_state(admin: AccountId) -> CrowdfundingState {
    CrowdfundingState {
        admin,
        campaigns: Map::empty(),
        campaign_count: 0,
        campaign_ids: Seq::empty(),
        investor_profiles: Map::empty(),
        investments: Map::empty(),
        milestones: Map::empty(),
        milestone_count: 0,
        proposals: Map::empty(),
        proposal_count: 0,
        voting_weights: Map::empty(),
        votes_cast: Map::empty(),
        share_holdings: Map::empty(),
        listings: Map::empty(),
        listing_count: 0,
        risk_profiles: Map::empty(),
        blocked_jurisdictions: Seq::empty(),
        events: Seq::empty(),
    }
}

/// What `investor` has put into campaign `campaign_id` (0 when nothing).
pub open spec fn investment_of(st: CrowdfundingState, campaign_id: u64, investor: AccountId) -> u128 {
    if st.investments.contains_key((campaign_id, investor)) {
        st.investments[(campaign_id, investor)]
    } else {
        0
    }
}

/// The shares of campaign `campaign_id` held by `holder` (0 when none).
pub open spec fn shares_in(holdings: Map<(u64, AccountId), u64>, campaign_id: u64, holder: AccountId) -> u64 {
    if holdings.contains_key((campaign_id, holder)) {
        holdings[(campaign_id, holder)]
    } else {
        0
    }
}

/// Whether `voter` has voted on proposal `proposal_id`.
pub open spec fn has_voted(st: CrowdfundingState, proposal_id: u64, voter: AccountId) -> bool {
    st.votes_cast.contains_key((proposal_id, voter)) && st.votes_cast[(proposal_id, voter)]
}

/// The weight of `voter`'s vote on proposals of campaign `campaign_id` (1 unless set).
pub open spec fn vote_weight(st: CrowdfundingState, campaign_id: u64, voter: AccountId) -> u64 {
    if st.voting_weights.contains_key((campaign_id, voter)) {
        st.voting_weights[(campaign_id, voter)]
    } else {
        1
    }
}

/// Whether `jurisdiction` is on the list of blocked jurisdictions.
pub open spec fn is_blocked(st: CrowdfundingState, jurisdiction: String) -> bool {
    exists|i: int|
        0 <= i < st.blocked_jurisdictions.len() && #[trigger] st.blocked_jurisdictions[i]@
            == jurisdiction@
}

/// Whether `caller` may manage the campaign stored under `campaign_id`.
pub open spec fn may_manage(st: CrowdfundingState, caller: AccountId, campaign_id: u64) -> bool {
    caller == st.campaigns[campaign_id].creator || caller == st.admin
}

/// The rating given to a property from its loan-to-value ratio, developer
/// score and market volatility.
pub open spec fn risk_rating_for(ltv: u32, dev_score: u32, volatility: u32) -> RiskRating {
    if ltv < 60 && dev_score >= 75 && volatility < 15 {
        RiskRating::Low
    } else if ltv < 80 && dev_score >= 50 && volatility < 30 {
        RiskRating::Medium
    } else {
        RiskRating::High
    }
}

/// `create_campaign`: the next id, a draft campaign under it, and an event.
pub open spec fn create_campaign_outcome(
    st: CrowdfundingState,
    caller: AccountId,
    title: String,
    target_amount: u128,
) -> (CrowdfundingState, Result<u64, CrowdfundingError>) {
    let id = (st.campaign_count + 1) as u64;
    let campaign = Campaign {
        campaign_id: id,
        creator: caller,
        title,
        target_amount,
        raised_amount: 0,
        status: CampaignStatus::Draft,
        investor_count: 0,
    };
    let event = Event::CampaignCreated(
        CampaignCreated { campaign_id: id, creator: caller, target_amount },
    );
    (
        CrowdfundingState {
            campaigns: st.campaigns.insert(id, campaign),
            campaign_count: id,
            campaign_ids: st.campaign_ids.push(id),
            events: st.events.push(event),
            ..st
        },
        Ok(id),
    )
}

/// `activate_campaign`: the creator or the admin sets the campaign active.
pub open spec fn activate_campaign_outcome(
    st: CrowdfundingState,
    caller: AccountId,
    campaign_id: u64,
) -> (CrowdfundingState, Result<(), CrowdfundingError>) {
    if !st.campaigns.contains_key(campaign_id) {
        (st, Err(CrowdfundingError::CampaignNotFound))
    } else if !may_manage(st, caller, campaign_id) {
        (st, Err(CrowdfundingError::Unauthorized))
    } else {
        let c = st.campaigns[campaign_id];
        (
            CrowdfundingState {
                campaigns: st.campaigns.insert(
                    campaign_id,
                    Campaign { status: CampaignStatus::Active, ..c },
                ),
                ..st
            },
            Ok(()),
        )
    }
}

/// `onboard_investor`: the caller's profile, KYC approved.
pub open spec fn onboard_investor_outcome(
    st: CrowdfundingState,
    caller: AccountId,
    jurisdiction: String,
    accredited: bool,
) -> (CrowdfundingState, Result<(), CrowdfundingError>) {
    let profile = InvestorProfile {
        investor: caller,
        kyc_status: ComplianceStatus::Approved,
        accredited,
        jurisdiction,
    };
    (
        CrowdfundingState {
            investor_profiles: st.investor_profiles.insert(caller, profile),
            ..st
        },
        Ok(()),
    )
}

/// Why `invest` refuses, if it does.
pub open spec fn invest_refusal(st: CrowdfundingState, caller: AccountId, campaign_id: u64) -> Option<
    CrowdfundingError,
> {
    if !st.investor_profiles.contains_key(caller) {
        Some(CrowdfundingError::InvestorNotCompliant)
    } else if st.investor_profiles[caller].kyc_status != ComplianceStatus::Approved {
        Some(CrowdfundingError::InvestorNotCompliant)
    } else if is_blocked(st, st.investor_profiles[caller].jurisdiction) {
        Some(CrowdfundingError::InvestorNotCompliant)
    } else if !st.campaigns.contains_key(campaign_id) {
        Some(CrowdfundingError::CampaignNotFound)
    } else if st.campaigns[campaign_id].status != CampaignStatus::Active {
        Some(CrowdfundingError::CampaignNotActive)
    } else {
        None
    }
}

/// The shares an investment of `amount` buys: one per 1 000 units, kept to 64 bits.
pub open spec fn shares_for(amount: u128) -> u64 {
    (amount / 1000) as u64
}

/// Whether an accepted `invest` keeps every counter within its type.
pub open spec fn invest_fits(st: CrowdfundingState, caller: AccountId, campaign_id: u64, amount: u128) -> bool {
    invest_refusal(st, caller, campaign_id) is None ==> {
        let c = st.campaigns[campaign_id];
        let current = investment_of(st, campaign_id, caller);
        &&& current + amount <= u128::MAX
        &&& c.raised_amount + amount <= u128::MAX
        &&& (current == 0 ==> c.investor_count + 1 <= u32::MAX)
        &&& shares_in(st.share_holdings, campaign_id, caller) + shares_for(amount) <= u64::MAX
    }
}

/// `invest`: a compliant investor puts `amount` into an active campaign and
/// receives shares; the campaign becomes funded once it reaches its target.
pub open spec fn invest_outcome(
    st: CrowdfundingState,
    caller: AccountId,
    campaign_id: u64,
    amount: u128,
) -> (CrowdfundingState, Result<(), CrowdfundingError>) {
    match invest_refusal(st, caller, campaign_id) {
        Some(e) => (st, Err(e)),
        None => {
            let c = st.campaigns[campaign_id];
            let current = investment_of(st, campaign_id, caller);
            let raised = (c.raised_amount + amount) as u128;
            let campaign = Campaign {
                raised_amount: raised,
                status: if raised >= c.target_amount {
                    CampaignStatus::Funded
                } else {
                    c.status
                },
                investor_count: if current == 0 {
                    (c.investor_count + 1) as u32
                } else {
                    c.investor_count
                },
                ..c
            };
            let held = shares_in(st.share_holdings, campaign_id, caller);
            let event = Event::InvestmentMade(
                InvestmentMade { campaign_id, investor: caller, amount },
            );
            (
                CrowdfundingState {
                    campaigns: st.campaigns.insert(campaign_id, campaign),
                    investments: st.investments.insert(
                        (campaign_id, caller),
                        (current + amount) as u128,
                    ),
                    share_holdings: st.share_holdings.insert(
                        (campaign_id, caller),
                        (held + shares_for(amount)) as u64,
                    ),
                    events: st.events.push(event),
                    ..st
                },
                Ok(()),
            )
        },
    }
}

/// `add_milestone`: the creator or the admin adds a pending milestone.
pub open spec fn add_milestone_outcome(
    st: CrowdfundingState,
    caller: AccountId,
    campaign_id: u64,
    description: String,
    release_amount: u128,
) -> (CrowdfundingState, Result<u64, CrowdfundingError>) {
    if !st.campaigns.contains_key(campaign_id) {
        (st, Err(CrowdfundingError::CampaignNotFound))
    } else if !may_manage(st, caller, campaign_id) {
        (st, Err(CrowdfundingError::Unauthorized))
    } else {
        let id = (st.milestone_count + 1) as u64;
        let milestone = Milestone {
            milestone_id: id,
            campaign_id,
            description,
            release_amount,
            status: MilestoneStatus::Pending,
        };
        (
            CrowdfundingState {
                milestones: st.milestones.insert(id, milestone),
                milestone_count: id,
                ..st
            },
            Ok(id),
        )
    }
}

/// `approve_milestone`: the admin approves a milestone.
pub open spec fn approve_milestone_outcome(
    st: CrowdfundingState,
    caller: AccountId,
    milestone_id: u64,
) -> (CrowdfundingState, Result<(), CrowdfundingError>) {
    if caller != st.admin {
        (st, Err(CrowdfundingError::Unauthorized))
    } else if !st.milestones.contains_key(milestone_id) {
        (st, Err(CrowdfundingError::MilestoneNotFound))
    } else {
        let m = st.milestones[milestone_id];
        let event = Event::MilestoneApproved(
            MilestoneApproved { milestone_id, release_amount: m.release_amount },
        );
        (
            CrowdfundingState {
                milestones: st.milestones.insert(
                    milestone_id,
                    Milestone { status: MilestoneStatus::Approved, ..m },
                ),
                events: st.events.push(event),
                ..st
            },
            Ok(()),
        )
    }
}

/// `release_milestone`: an approved milestone is released.
pub open spec fn release_milestone_outcome(st: CrowdfundingState, milestone_id: u64) -> (
    CrowdfundingState,
    Result<(), CrowdfundingError>,
) {
    if !st.milestones.contains_key(milestone_id) {
        (st, Err(CrowdfundingError::MilestoneNotFound))
    } else if st.milestones[milestone_id].status != MilestoneStatus::Approved {
        (st, Err(CrowdfundingError::MilestoneNotApproved))
    } else {
        let m = st.milestones[milestone_id];
        (
            CrowdfundingState {
                milestones: st.milestones.insert(
                    milestone_id,
                    Milestone { status: MilestoneStatus::Released, ..m },
                ),
                ..st
            },
            Ok(()),
        )
    }
}

/// The target used to share out profit: the campaign's target, 0 for an unknown campaign.
pub open spec fn profit_basis(st: CrowdfundingState, campaign_id: u64) -> u128 {
    if st.campaigns.contains_key(campaign_id) {
        st.campaigns[campaign_id].target_amount
    } else {
        0
    }
}

/// `distribute_profit`: the investor's share of `total_profit`, in proportion
/// of their investment to the campaign's target (0 when the target is 0).
pub open spec fn profit_share(
    st: CrowdfundingState,
    campaign_id: u64,
    total_profit: u128,
    investor: AccountId,
) -> u128 {
    let target = profit_basis(st, campaign_id);
    if target == 0 {
        0
    } else {
        ((total_profit * investment_of(st, campaign_id, investor)) / (target as int)) as u128
    }
}

/// `create_proposal`: an active proposal on an existing campaign, and an event.
pub open spec fn create_proposal_outcome(
    st: CrowdfundingState,
    campaign_id: u64,
    description: String,
) -> (CrowdfundingState, Result<u64, CrowdfundingError>) {
    if !st.campaigns.contains_key(campaign_id) {
        (st, Err(CrowdfundingError::CampaignNotFound))
    } else {
        let id = (st.proposal_count + 1) as u64;
        let proposal = Proposal {
            proposal_id: id,
            campaign_id,
            description,
            votes_for: 0,
            votes_against: 0,
            status: ProposalStatus::Active,
        };
        let event = Event::ProposalCreated(ProposalCreated { proposal_id: id, campaign_id });
        (
            CrowdfundingState {
                proposals: st.proposals.insert(id, proposal),
                proposal_count: id,
                events: st.events.push(event),
                ..st
            },
            Ok(id),
        )
    }
}

/// Why `vote` refuses, if it does.
pub open spec fn vote_refusal(st: CrowdfundingState, caller: AccountId, proposal_id: u64) -> Option<
    CrowdfundingError,
> {
    if has_voted(st, proposal_id, caller) {
        Some(CrowdfundingError::AlreadyVoted)
    } else if !st.proposals.contains_key(proposal_id) {
        Some(CrowdfundingError::ProposalNotFound)
    } else if st.proposals[proposal_id].status != ProposalStatus::Active {
        Some(CrowdfundingError::ProposalNotActive)
    } else {
        None
    }
}

/// Whether an accepted vote keeps the tally within `u64`.
pub open spec fn vote_fits(st: CrowdfundingState, caller: AccountId, proposal_id: u64, in_favour: bool) -> bool {
    vote_refusal(st, caller, proposal_id) is None ==> {
        let p = st.proposals[proposal_id];
        let w = vote_weight(st, p.campaign_id, caller);
        if in_favour {
            p.votes_for + w <= u64::MAX
        } else {
            p.votes_against + w <= u64::MAX
        }
    }
}

/// `vote`: one weighted vote per account on an active proposal.
pub open spec fn vote_outcome(
    st: CrowdfundingState,
    caller: AccountId,
    proposal_id: u64,
    in_favour: bool,
) -> (CrowdfundingState, Result<(), CrowdfundingError>) {
    match vote_refusal(st, caller, proposal_id) {
        Some(e) => (st, Err(e)),
        None => {
            let p = st.proposals[proposal_id];
            let w = vote_weight(st, p.campaign_id, caller);
            let tallied = if in_favour {
                Proposal { votes_for: (p.votes_for + w) as u64, ..p }
            } else {
                Proposal { votes_against: (p.votes_against + w) as u64, ..p }
            };
            (
                CrowdfundingState {
                    proposals: st.proposals.insert(proposal_id, tallied),
                    votes_cast: st.votes_cast.insert((proposal_id, caller), true),
                    ..st
                },
                Ok(()),
            )
        },
    }
}

/// The outcome of counting a proposal's votes: passed on a strict majority for.
pub open spec fn verdict(p: Proposal) -> ProposalStatus {
    if p.votes_for > p.votes_against {
        ProposalStatus::Passed
    } else {
        ProposalStatus::Rejected
    }
}

/// `finalize_proposal`: the proposal takes its verdict.
pub open spec fn finalize_proposal_outcome(st: CrowdfundingState, proposal_id: u64) -> (
    CrowdfundingState,
    Result<ProposalStatus, CrowdfundingError>,
) {
    if !st.proposals.contains_key(proposal_id) {
        (st, Err(CrowdfundingError::ProposalNotFound))
    } else {
        let p = st.proposals[proposal_id];
        (
            CrowdfundingState {
                proposals: st.proposals.insert(proposal_id, Proposal { status: verdict(p), ..p }),
                ..st
            },
            Ok(verdict(p)),
        )
    }
}

/// `list_shares`: a holder offers some of their shares for sale.
pub open spec fn list_shares_outcome(
    st: CrowdfundingState,
    caller: AccountId,
    campaign_id: u64,
    shares: u64,
    price_per_share: u128,
) -> (CrowdfundingState, Result<u64, CrowdfundingError>) {
    if shares_in(st.share_holdings, campaign_id, caller) < shares {
        (st, Err(CrowdfundingError::InsufficientShares))
    } else {
        let id = (st.listing_count + 1) as u64;
        let listing = ShareListing {
            listing_id: id,
            seller: caller,
            campaign_id,
            shares,
            price_per_share,
        };
        let event = Event::SharesListed(SharesListed { listing_id: id, seller: caller, shares });
        (
            CrowdfundingState {
                listings: st.listings.insert(id, listing),
                listing_count: id,
                events: st.events.push(event),
                ..st
            },
            Ok(id),
        )
    }
}

/// The holdings after the seller of `l` gives up its shares (never below zero).
pub open spec fn after_sale(holdings: Map<(u64, AccountId), u64>, l: ShareListing) -> Map<
    (u64, AccountId),
    u64,
> {
    let held = shares_in(holdings, l.campaign_id, l.seller);
    holdings.insert(
        (l.campaign_id, l.seller),
        if held >= l.shares {
            (held - l.shares) as u64
        } else {
            0
        },
    )
}

/// Whether an accepted purchase keeps the cost and the buyer's holding within their types.
pub open spec fn buy_fits(st: CrowdfundingState, caller: AccountId, listing_id: u64) -> bool {
    st.listings.contains_key(listing_id) ==> {
        let l = st.listings[listing_id];
        &&& l.price_per_share * l.shares <= u128::MAX
        &&& shares_in(after_sale(st.share_holdings, l), l.campaign_id, caller) + l.shares
            <= u64::MAX
    }
}

/// `buy_shares`: the listed shares move from the seller to the caller, the
/// listing goes away, and the price of the lot is returned.
pub open spec fn buy_shares_outcome(st: CrowdfundingState, caller: AccountId, listing_id: u64) -> (
    CrowdfundingState,
    Result<u128, CrowdfundingError>,
) {
    if !st.listings.contains_key(listing_id) {
        (st, Err(CrowdfundingError::ListingNotFound))
    } else {
        let l = st.listings[listing_id];
        let sold = after_sale(st.share_holdings, l);
        let bought = (shares_in(sold, l.campaign_id, caller) + l.shares) as u64;
        (
            CrowdfundingState {
                share_holdings: sold.insert((l.campaign_id, caller), bought),
                listings: st.listings.remove(listing_id),
                ..st
            },
            Ok((l.price_per_share * l.shares) as u128),
        )
    }
}

/// `assess_risk`: the admin records the campaign's risk profile.
pub open spec fn assess_risk_outcome(
    st: CrowdfundingState,
    caller: AccountId,
    campaign_id: u64,
    ltv: u32,
    dev_score: u32,
    volatility: u32,
) -> (CrowdfundingState, Result<(), CrowdfundingError>) {
    if caller != st.admin {
        (st, Err(CrowdfundingError::Unauthorized))
    } else {
        let profile = RiskProfile {
            campaign_id,
            ltv_ratio: ltv,
            developer_score: dev_score,
            market_volatility: volatility,
            rating: risk_rating_for(ltv, dev_score, volatility),
        };
        (
            CrowdfundingState {
                risk_profiles: st.risk_profiles.insert(campaign_id, profile),
                ..st
            },
            Ok(()),
        )
    }
}

} // verus!
