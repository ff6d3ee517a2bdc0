use vstd::prelude::*;

use crate::account::{AccountId, StorageKey};
use crate::rules::{
    activate_campaign_outcome, add_milestone_outcome, after_sale, approve_milestone_outcome,
    assess_risk_outcome, buy_fits, buy_shares_outcome, create_campaign_outcome,
    create_proposal_outcome, finalize_proposal_outcome, initial_state, invest_fits, invest_outcome,
    investment_of, is_blocked, list_shares_outcome, onboard_investor_outcome, profit_basis,
    profit_share, release_milestone_outcome, shares_in, vote_fits, vote_outcome, CrowdfundingState,
};
use crate::discovery::{
    by_raised_desc, capped, considers, listable, listed, matches_filter, page_window, pickable,
    picked, reports, sort_by_raised_desc, summarizable, summary_of, status_count, status_counts,
    CampaignQuery, MAX_RESULTS,
};
use crate::storage::StorageMap;
use crate::text::keyword_in_title;
use crate::types::{
    Campaign, CampaignFilter, CampaignSummary, CampaignCreated, CampaignStatus, ComplianceStatus,
    CrowdfundingError, Event, InvestmentMade, InvestorProfile, Milestone, MilestoneApproved,
    MilestoneStatus, Proposal, ProposalCreated, ProposalStatus, RiskProfile, RiskRating,
    ShareListing, SharesListed,
};

verus! {

/// The real-estate crowdfunding contract: campaigns, compliant investors,
/// milestones, governance, a secondary market for shares and risk ratings.
///
/// Every message that the contract reads the caller of takes `caller`; the
/// events it emits are appended to its event log.
pub struct RealEstateCrowdfunding {
    admin: AccountId,
    campaigns: StorageMap<u64, Campaign>,
    campaign_count: u64,
    campaign_ids: Vec<u64>,
    investor_profiles: StorageMap<AccountId, InvestorProfile>,
    investments: StorageMap<(u64, AccountId), u128>,
    milestones: StorageMap<u64, Milestone>,
    milestone_count: u64,
    proposals: StorageMap<u64, Proposal>,
    proposal_count: u64,
    voting_weights: StorageMap<(u64, AccountId), u64>,
    votes_cast: StorageMap<(u64, AccountId), bool>,
    share_holdings: StorageMap<(u64, AccountId), u64>,
    listings: StorageMap<u64, ShareListing>,
    listing_count: u64,
    risk_profiles: StorageMap<u64, RiskProfile>,
    blocked_jurisdictions: Vec<String>,
    events: Vec<Event>,
}

impl View for RealEstateCrowdfunding {
    type V = CrowdfundingState;

    closed spec fn view(&self) -> CrowdfundingState {
        CrowdfundingState {
            admin: self.admin,
            campaigns: self.campaigns@,
            campaign_count: self.campaign_count,
            campaign_ids: self.campaign_ids@,
            investor_profiles: self.investor_profiles@,
            investments: self.investments@,
            milestones: self.milestones@,
            milestone_count: self.milestone_count,
            proposals: self.proposals@,
            proposal_count: self.proposal_count,
            voting_weights: self.voting_weights@,
            votes_cast: self.votes_cast@,
            share_holdings: self.share_holdings@,
            listings: self.listings@,
            listing_count: self.listing_count,
            risk_profiles: self.risk_profiles@,
            blocked_jurisdictions: self.blocked_jurisdictions@,
            events: self.events@,
        }
    }
}

impl RealEstateCrowdfunding {
    /// A fresh contract administered by `admin`.
    pub fn new(admin: AccountId) -> (r: RealEstateCrowdfunding)
        ensures
            r@ == initial_state(admin),
    {
        let r = RealEstateCrowdfunding {
            admin,
            campaigns: StorageMap::new(),
            campaign_count: 0,
            campaign_ids: Vec::new(),
            investor_profiles: StorageMap::new(),
            investments: StorageMap::new(),
            milestones: StorageMap::new(),
            milestone_count: 0,
            proposals: StorageMap::new(),
            proposal_count: 0,
            voting_weights: StorageMap::new(),
            votes_cast: StorageMap::new(),
            share_holdings: StorageMap::new(),
            listings: StorageMap::new(),
            listing_count: 0,
            risk_profiles: StorageMap::new(),
            blocked_jurisdictions: Vec::new(),
            events: Vec::new(),
        };
        assert(r@ =~= initial_state(admin));
        r
    }

    fn investment_amount(&self, campaign_id: u64, investor: AccountId) -> (r: u128)
        ensures
            r == investment_of(self@, campaign_id, investor),
    {
        match self.investments.get(&(campaign_id, investor)) {
            Some(v) => *v,
            None => 0,
        }
    }

    fn holding(&self, campaign_id: u64, holder: AccountId) -> (r: u64)
        ensures
            r == shares_in(self@.share_holdings, campaign_id, holder),
    {
        match self.share_holdings.get(&(campaign_id, holder)) {
            Some(v) => *v,
            None => 0,
        }
    }

    fn jurisdiction_blocked(&self, jurisdiction: &String) -> (r: bool)
        ensures
            r == is_blocked(self@, *jurisdiction),
    {
        let mut i: usize = 0;
        while i < self.blocked_jurisdictions.len()
            invariant
                i <= self.blocked_jurisdictions@.len(),
                forall|j: int|
                    0 <= j < i ==> self.blocked_jurisdictions@[j]@ != jurisdiction@,
            decreases self.blocked_jurisdictions@.len() - i,
        {
            if self.blocked_jurisdictions[i] == *jurisdiction {
                assert(self@.blocked_jurisdictions[i as int]@ == jurisdiction@);
                return true;
            }
            i = i + 1;
        }
        false
    }

    fn manages(&self, caller: &AccountId, campaign: &Campaign) -> (r: bool)
        ensures
            r == (*caller == campaign.creator || *caller == self@.admin),
    {
        caller.same_key(&campaign.creator) || caller.same_key(&self.admin)
    }

    // ── Core campaign messages ───────────────────────────────

    /// Creates a draft campaign of `caller` and returns its id (ids count up from 1).
    pub fn create_campaign(&mut self, caller: AccountId, title: String, target_amount: u128) -> (r:
        Result<u64, CrowdfundingError>)
        requires
            old(self)@.campaign_count < u64::MAX,
        ensures
            final(self)@ == create_campaign_outcome(old(self)@, caller, title, target_amount).0,
            r == create_campaign_outcome(old(self)@, caller, title, target_amount).1,
    {
        let id = self.campaign_count + 1;
        self.campaign_count = id;
        let campaign = Campaign {
            campaign_id: id,
            creator: caller,
            title,
            target_amount,
            raised_amount: 0,
            status: CampaignStatus::Draft,
            investor_count: 0,
        };
        self.campaigns.insert(id, campaign);
        self.campaign_ids.push(id);
        self.events.push(
            Event::CampaignCreated(CampaignCreated { campaign_id: id, creator: caller, target_amount }),
        );
        assert(self@ =~= create_campaign_outcome(old(self)@, caller, title, target_amount).0);
        Ok(id)
    }

    /// Sets a campaign active; only its creator or the admin may.
    pub fn activate_campaign(&mut self, caller: AccountId, campaign_id: u64) -> (r: Result<
        (),
        CrowdfundingError,
    >)
        ensures
            final(self)@ == activate_campaign_outcome(old(self)@, caller, campaign_id).0,
            r == activate_campaign_outcome(old(self)@, caller, campaign_id).1,
    {
        let updated = match self.campaigns.get(&campaign_id) {
            None => return Err(CrowdfundingError::CampaignNotFound),
            Some(c) => {
                if !self.manages(&caller, c) {
                    return Err(CrowdfundingError::Unauthorized);
                }
                let mut updated = c.snapshot();
                updated.status = CampaignStatus::Active;
                updated
            },
        };
        self.campaigns.insert(campaign_id, updated);
        assert(self@ =~= activate_campaign_outcome(old(self)@, caller, campaign_id).0);
        Ok(())
    }

    /// Records `caller` as an investor with approved KYC.
    pub fn onboard_investor(&mut self, caller: AccountId, jurisdiction: String, accredited: bool) -> (r:
        Result<(), CrowdfundingError>)
        ensures
            final(self)@ == onboard_investor_outcome(
                old(self)@,
                caller,
                jurisdiction,
                accredited,
            ).0,
            r == onboard_investor_outcome(old(self)@, caller, jurisdiction, accredited).1,
    {
        let profile = InvestorProfile {
            investor: caller,
            kyc_status: ComplianceStatus::Approved,
            accredited,
            jurisdiction,
        };
        self.investor_profiles.insert(caller, profile);
        assert(self@ =~= onboard_investor_outcome(old(self)@, caller, jurisdiction, accredited).0);
        Ok(())
    }
    /// Invests `amount` from `caller` into an active campaign: the caller must
    /// be onboarded, KYC approved and not from a blocked jurisdiction. The
    /// caller gets one share per 1 000 invested; the campaign becomes funded
    /// once its raised amount reaches the target.
    pub fn invest(&mut self, caller: AccountId, campaign_id: u64, amount: u128) -> (r: Result<
        (),
        CrowdfundingError,
    >)
        requires
            invest_fits(old(self)@, caller, campaign_id, amount),
        ensures
            final(self)@ == invest_outcome(old(self)@, caller, campaign_id, amount).0,
            r == invest_outcome(old(self)@, caller, campaign_id, amount).1,
    {
        match self.investor_profiles.get(&caller) {
            None => return Err(CrowdfundingError::InvestorNotCompliant),
            Some(profile) => {
                if profile.kyc_status != ComplianceStatus::Approved {
                    return Err(CrowdfundingError::InvestorNotCompliant);
                }
                if self.jurisdiction_blocked(&profile.jurisdiction) {
                    return Err(CrowdfundingError::InvestorNotCompliant);
                }
            },
        }
        let mut campaign = match self.campaigns.get(&campaign_id) {
            None => return Err(CrowdfundingError::CampaignNotFound),
            Some(c) => {
                if c.status != CampaignStatus::Active {
                    return Err(CrowdfundingError::CampaignNotActive);
                }
                c.snapshot()
            },
        };
        let current = self.investment_amount(campaign_id, caller);
        if current == 0 {
            campaign.investor_count = campaign.investor_count + 1;
        }
        self.investments.insert((campaign_id, caller), current + amount);
        campaign.raised_amount = campaign.raised_amount + amount;
        if campaign.raised_amount >= campaign.target_amount {
            campaign.status = CampaignStatus::Funded;
        }
        self.campaigns.insert(campaign_id, campaign);
        let shares = (amount / 1000) as u64;
        let current_shares = self.holding(campaign_id, caller);
        self.share_holdings.insert((campaign_id, caller), current_shares + shares);
        self.events.push(
            Event::InvestmentMade(InvestmentMade { campaign_id, investor: caller, amount }),
        );
        assert(self@ =~= invest_outcome(old(self)@, caller, campaign_id, amount).0);
        Ok(())
    }

    /// Adds a pending milestone to a campaign; only its creator or the admin may.
    pub fn add_milestone(
        &mut self,
        caller: AccountId,
        campaign_id: u64,
        description: String,
        release_amount: u128,
    ) -> (r: Result<u64, CrowdfundingError>)
        requires
            old(self)@.milestone_count < u64::MAX,
        ensures
            final(self)@ == add_milestone_outcome(
                old(self)@,
                caller,
                campaign_id,
                description,
                release_amount,
            ).0,
            r == add_milestone_outcome(
                old(self)@,
                caller,
                campaign_id,
                description,
                release_amount,
            ).1,
    {
        match self.campaigns.get(&campaign_id) {
            None => return Err(CrowdfundingError::CampaignNotFound),
            Some(c) => {
                if !self.manages(&caller, c) {
                    return Err(CrowdfundingError::Unauthorized);
                }
            },
        }
        let id = self.milestone_count + 1;
        self.milestone_count = id;
        let milestone = Milestone {
            milestone_id: id,
            campaign_id,
            description,
            release_amount,
            status: MilestoneStatus::Pending,
        };
        self.milestones.insert(id, milestone);
        assert(self@ =~= add_milestone_outcome(
            old(self)@,
            caller,
            campaign_id,
            description,
            release_amount,
        ).0);
        Ok(id)
    }

    /// Approves a milestone; only the admin may.
    pub fn approve_milestone(&mut self, caller: AccountId, milestone_id: u64) -> (r: Result<
        (),
        CrowdfundingError,
    >)
        ensures
            final(self)@ == approve_milestone_outcome(old(self)@, caller, milestone_id).0,
            r == approve_milestone_outcome(old(self)@, caller, milestone_id).1,
    {
        if !caller.same_key(&self.admin) {
            return Err(CrowdfundingError::Unauthorized);
        }
        let updated = match self.milestones.get(&milestone_id) {
            None => return Err(CrowdfundingError::MilestoneNotFound),
            Some(m) => {
                let mut updated = m.snapshot();
                updated.status = MilestoneStatus::Approved;
                updated
            },
        };
        let release_amount = updated.release_amount;
        self.milestones.insert(milestone_id, updated);
        self.events.push(
            Event::MilestoneApproved(MilestoneApproved { milestone_id, release_amount }),
        );
        assert(self@ =~= approve_milestone_outcome(old(self)@, caller, milestone_id).0);
        Ok(())
    }

    /// Releases an approved milestone.
    pub fn release_milestone(&mut self, milestone_id: u64) -> (r: Result<(), CrowdfundingError>)
        ensures
            final(self)@ == release_milestone_outcome(old(self)@, milestone_id).0,
            r == release_milestone_outcome(old(self)@, milestone_id).1,
    {
        let updated = match self.milestones.get(&milestone_id) {
            None => return Err(CrowdfundingError::MilestoneNotFound),
            Some(m) => {
                if m.status != MilestoneStatus::Approved {
                    return Err(CrowdfundingError::MilestoneNotApproved);
                }
                let mut updated = m.snapshot();
                updated.status = MilestoneStatus::Released;
                updated
            },
        };
        self.milestones.insert(milestone_id, updated);
        assert(self@ =~= release_milestone_outcome(old(self)@, milestone_id).0);
        Ok(())
    }

    /// The investor's part of `total_profit`: in proportion of their
    /// investment to the campaign's target, 0 when the campaign is unknown
    /// or its target is 0.
    pub fn distribute_profit(&self, campaign_id: u64, total_profit: u128, investor: AccountId) -> (r:
        u128)
        requires
            profit_basis(self@, campaign_id) != 0 ==> total_profit * investment_of(
                self@,
                campaign_id,
                investor,
            ) <= u128::MAX,
        ensures
            r == profit_share(self@, campaign_id, total_profit, investor),
    {
        let target: u128 = match self.campaigns.get(&campaign_id) {
            Some(c) => c.target_amount,
            None => 0,
        };
        let investment = self.investment_amount(campaign_id, investor);
        if target == 0 {
            return 0;
        }
        (total_profit * investment) / target
    }

    /// Opens an active proposal on an existing campaign.
    pub fn create_proposal(&mut self, campaign_id: u64, description: String) -> (r: Result<
        u64,
        CrowdfundingError,
    >)
        requires
            old(self)@.proposal_count < u64::MAX,
        ensures
            final(self)@ == create_proposal_outcome(old(self)@, campaign_id, description).0,
            r == create_proposal_outcome(old(self)@, campaign_id, description).1,
    {
        if !self.campaigns.contains(&campaign_id) {
            return Err(CrowdfundingError::CampaignNotFound);
        }
        let id = self.proposal_count + 1;
        self.proposal_count = id;
        let proposal = Proposal {
            proposal_id: id,
            campaign_id,
            description,
            votes_for: 0,
            votes_against: 0,
            status: ProposalStatus::Active,
        };
        self.proposals.insert(id, proposal);
        self.events.push(Event::ProposalCreated(ProposalCreated { proposal_id: id, campaign_id }));
        assert(self@ =~= create_proposal_outcome(old(self)@, campaign_id, description).0);
        Ok(id)
    }

    /// Casts `caller`'s vote on an active proposal; each account votes once.
    pub fn vote(&mut self, caller: AccountId, proposal_id: u64, in_favour: bool) -> (r: Result<
        (),
        CrowdfundingError,
    >)
        requires
            vote_fits(old(self)@, caller, proposal_id, in_favour),
        ensures
            final(self)@ == vote_outcome(old(self)@, caller, proposal_id, in_favour).0,
            r == vote_outcome(old(self)@, caller, proposal_id, in_favour).1,
    {
        let voted = match self.votes_cast.get(&(proposal_id, caller)) {
            Some(v) => *v,
            None => false,
        };
        if voted {
            return Err(CrowdfundingError::AlreadyVoted);
        }
        let mut proposal = match self.proposals.get(&proposal_id) {
            None => return Err(CrowdfundingError::ProposalNotFound),
            Some(p) => {
                if p.status != ProposalStatus::Active {
                    return Err(CrowdfundingError::ProposalNotActive);
                }
                p.snapshot()
            },
        };
        let weight: u64 = match self.voting_weights.get(&(proposal.campaign_id, caller)) {
            Some(w) => *w,
            None => 1,
        };
        if in_favour {
            proposal.votes_for = proposal.votes_for + weight;
        } else {
            proposal.votes_against = proposal.votes_against + weight;
        }
        self.proposals.insert(proposal_id, proposal);
        self.votes_cast.insert((proposal_id, caller), true);
        assert(self@ =~= vote_outcome(old(self)@, caller, proposal_id, in_favour).0);
        Ok(())
    }

    /// Closes the count of a proposal: passed when more votes are for than against.
    pub fn finalize_proposal(&mut self, proposal_id: u64) -> (r: Result<
        ProposalStatus,
        CrowdfundingError,
    >)
        ensures
            final(self)@ == finalize_proposal_outcome(old(self)@, proposal_id).0,
            r == finalize_proposal_outcome(old(self)@, proposal_id).1,
    {
        let mut proposal = match self.proposals.get(&proposal_id) {
            None => return Err(CrowdfundingError::ProposalNotFound),
            Some(p) => p.snapshot(),
        };
        proposal.status = if proposal.votes_for > proposal.votes_against {
            ProposalStatus::Passed
        } else {
            ProposalStatus::Rejected
        };
        let status = proposal.status;
        self.proposals.insert(proposal_id, proposal);
        assert(self@ =~= finalize_proposal_outcome(old(self)@, proposal_id).0);
        Ok(status)
    }

    /// Lists `shares` of the caller's holding in a campaign for sale.
    pub fn list_shares(
        &mut self,
        caller: AccountId,
        campaign_id: u64,
        shares: u64,
        price_per_share: u128,
    ) -> (r: Result<u64, CrowdfundingError>)
        requires
            old(self)@.listing_count < u64::MAX,
        ensures
            final(self)@ == list_shares_outcome(
                old(self)@,
                caller,
                campaign_id,
                shares,
                price_per_share,
            ).0,
            r == list_shares_outcome(old(self)@, caller, campaign_id, shares, price_per_share).1,
    {
        let held = self.holding(campaign_id, caller);
        if held < shares {
            return Err(CrowdfundingError::InsufficientShares);
        }
        let id = self.listing_count + 1;
        self.listing_count = id;
        let listing = ShareListing {
            listing_id: id,
            seller: caller,
            campaign_id,
            shares,
            price_per_share,
        };
        self.listings.insert(id, listing);
        self.events.push(Event::SharesListed(SharesListed { listing_id: id, seller: caller, shares }));
        assert(self@ =~= list_shares_outcome(
            old(self)@,
            caller,
            campaign_id,
            shares,
            price_per_share,
        ).0);
        Ok(id)
    }

    /// Buys a listing: its shares move from the seller to the caller, the
    /// listing is removed, and the total price is returned.
    pub fn buy_shares(&mut self, caller: AccountId, listing_id: u64) -> (r: Result<
        u128,
        CrowdfundingError,
    >)
        requires
            buy_fits(old(self)@, caller, listing_id),
        ensures
            final(self)@ == buy_shares_outcome(old(self)@, caller, listing_id).0,
            r == buy_shares_outcome(old(self)@, caller, listing_id).1,
    {
        let listing = match self.listings.get(&listing_id) {
            None => return Err(CrowdfundingError::ListingNotFound),
            Some(l) => *l,
        };
        let total_cost = listing.price_per_share * (listing.shares as u128);
        let seller_shares = self.holding(listing.campaign_id, listing.seller);
        self.share_holdings.insert(
            (listing.campaign_id, listing.seller),
            seller_shares.saturating_sub(listing.shares),
        );
        assert(self@.share_holdings == after_sale(old(self)@.share_holdings, listing));
        let buyer_shares = self.holding(listing.campaign_id, caller);
        self.share_holdings.insert((listing.campaign_id, caller), buyer_shares + listing.shares);
        self.listings.remove(&listing_id);
        assert(self@ =~= buy_shares_outcome(old(self)@, caller, listing_id).0);
        Ok(total_cost)
    }

    /// Rates a campaign's risk; only the admin may.
    pub fn assess_risk(
        &mut self,
        caller: AccountId,
        campaign_id: u64,
        ltv: u32,
        dev_score: u32,
        volatility: u32,
    ) -> (r: Result<(), CrowdfundingError>)
        ensures
            final(self)@ == assess_risk_outcome(
                old(self)@,
                caller,
                campaign_id,
                ltv,
                dev_score,
                volatility,
            ).0,
            r == assess_risk_outcome(old(self)@, caller, campaign_id, ltv, dev_score, volatility).1,
    {
        if !caller.same_key(&self.admin) {
            return Err(CrowdfundingError::Unauthorized);
        }
        let rating = if ltv < 60 && dev_score >= 75 && volatility < 15 {
            RiskRating::Low
        } else if ltv < 80 && dev_score >= 50 && volatility < 30 {
            RiskRating::Medium
        } else {
            RiskRating::High
        };
        let profile = RiskProfile {
            campaign_id,
            ltv_ratio: ltv,
            developer_score: dev_score,
            market_volatility: volatility,
            rating,
        };
        self.risk_profiles.insert(campaign_id, profile);
        assert(self@ =~= assess_risk_outcome(
            old(self)@,
            caller,
            campaign_id,
            ltv,
            dev_score,
            volatility,
        ).0);
        Ok(())
    }
    // ── Search & discovery ───────────────────────────────────

    fn campaign_to_summary(&self, campaign: &Campaign) -> (r: CampaignSummary)
        requires
            summarizable(*campaign),
        ensures
            r == summary_of(self@, *campaign),
    {
        let funded_pct = if campaign.target_amount == 0 {
            0u32
        } else {
            ((campaign.raised_amount * 100) / campaign.target_amount) as u32
        };
        let risk_rating = match self.risk_profiles.get(&campaign.campaign_id) {
            Some(p) => p.rating,
            None => RiskRating::Unrated,
        };
        CampaignSummary {
            campaign_id: campaign.campaign_id,
            creator: campaign.creator,
            title: campaign.title.clone(),
            target_amount: campaign.target_amount,
            raised_amount: campaign.raised_amount,
            funded_pct,
            status: campaign.status,
            investor_count: campaign.investor_count,
            risk_rating,
        }
    }

    fn matches_filter(summary: &CampaignSummary, filter: &CampaignFilter) -> (r: bool)
        ensures
            r == matches_filter(*summary, *filter),
    {
        if let Some(status) = filter.status {
            if summary.status != status {
                return false;
            }
        }
        if let Some(keyword) = &filter.title_keyword {
            if !keyword_in_title(summary.title.as_str(), keyword.as_str()) {
                return false;
            }
        }
        if let Some(min) = filter.min_target {
            if summary.target_amount < min {
                return false;
            }
        }
        if let Some(max) = filter.max_target {
            if summary.target_amount > max {
                return false;
            }
        }
        if let Some(min_pct) = filter.min_funded_pct {
            if summary.funded_pct < min_pct {
                return false;
            }
        }
        if filter.funded_only && summary.status != CampaignStatus::Funded {
            return false;
        }
        true
    }

    fn considers(&self, query: &CampaignQuery, id: u64, campaign: &Campaign) -> (r: bool)
        ensures
            r == considers(self@, *query, id, *campaign),
    {
        match query {
            CampaignQuery::CreatedBy(creator) => campaign.creator.same_key(creator),
            CampaignQuery::InvestedBy(investor) => self.investment_amount(id, *investor) > 0,
            _ => true,
        }
    }

    fn reports(query: &CampaignQuery, summary: &CampaignSummary) -> (r: bool)
        ensures
            r == reports(*query, *summary),
    {
        match query {
            CampaignQuery::Matching(filter) => Self::matches_filter(summary, filter),
            CampaignQuery::RatedAs(rating) => summary.risk_rating == *rating,
            CampaignQuery::NearFunded(threshold) => summary.status == CampaignStatus::Active
                && summary.funded_pct >= *threshold,
            _ => true,
        }
    }

    /// Walks the campaign ids from `from` to `to`, reporting what `query`
    /// selects, and stops after `limit` summaries.
    fn pick(&self, from: usize, to: usize, query: &CampaignQuery, limit: usize) -> (r: Vec<
        CampaignSummary,
    >)
        requires
            from <= to <= self@.campaign_ids.len(),
            pickable(self@, self@.campaign_ids.subrange(from as int, to as int), *query, limit as nat),
        ensures
            r@ == picked(self@, self@.campaign_ids.subrange(from as int, to as int), *query, limit as nat),
    {
        let ghost st = self@;
        let ghost ids = self@.campaign_ids;
        let ghost all = ids.subrange(from as int, to as int);
        let mut out: Vec<CampaignSummary> = Vec::new();
        let mut i = from;
        while i < to && out.len() < limit
            invariant
                st == self@,
                ids == self@.campaign_ids,
                all == ids.subrange(from as int, to as int),
                from <= i <= to <= ids.len(),
                out@.len() <= limit,
                out@ + picked(st, ids.subrange(i as int, to as int), *query, (limit - out@.len()) as nat)
                    == picked(st, all, *query, limit as nat),
                pickable(st, ids.subrange(i as int, to as int), *query, (limit - out@.len()) as nat),
            decreases to - i,
        {
            let ghost rest = ids.subrange(i as int, to as int);
            let ghost left = (limit - out@.len()) as nat;
            assert(rest[0] == ids[i as int]);
            assert(rest.drop_first() =~= ids.subrange(i + 1, to as int));
            let id = self.campaign_ids[i];
            match self.campaigns.get(&id) {
                Some(c) => {
                    if self.considers(query, id, c) {
                        let summary = self.campaign_to_summary(c);
                        if Self::reports(query, &summary) {
                            out.push(summary);
                            assert(out@ + picked(st, ids.subrange(i + 1, to as int), *query, (left - 1) as nat)
                                =~= picked(st, all, *query, limit as nat));
                        }
                    }
                },
                None => {},
            }
            i = i + 1;
        }
        proof {
            if out@.len() < limit {
                assert(ids.subrange(i as int, to as int).len() == 0);
            }
            assert(out@ + picked(st, ids.subrange(i as int, to as int), *query, (limit - out@.len()) as nat)
                =~= out@);
        }
        out
    }

    /// Browses all campaigns page by page; `page` is 0-based and pages hold at most 50.
    pub fn get_campaigns_paginated(&self, page: u64, page_size: u64) -> (r: Vec<CampaignSummary>)
        requires
            page * capped(page_size) <= u64::MAX,
            listable(
                self@,
                page_window(self@.campaign_ids, page, capped(page_size)),
                CampaignQuery::All,
            ),
        ensures
            r@ == listed(
                self@,
                page_window(self@.campaign_ids, page, capped(page_size)),
                CampaignQuery::All,
            ),
    {
        let page_size = if page_size < MAX_RESULTS {
            page_size
        } else {
            MAX_RESULTS
        };
        let start = (page * page_size) as usize;
        let len = self.campaign_ids.len();
        let lo = if start < len {
            start
        } else {
            len
        };
        let hi = if (page_size as usize) < len - lo {
            lo + page_size as usize
        } else {
            len
        };
        let ghost window = page_window(self@.campaign_ids, page, page_size);
        assert(window =~= self@.campaign_ids.subrange(lo as int, hi as int));
        proof {
            crate::discovery::lemma_listable_pickable(self@, window, CampaignQuery::All, window.len());
        }
        self.pick(lo, hi, &CampaignQuery::All, hi - lo)
    }

    /// Campaigns that meet `filter`, in creation order, at most `limit` (and at most 50) of them.
    pub fn search_campaigns(&self, filter: CampaignFilter, limit: u64) -> (r: Vec<CampaignSummary>)
        requires
            pickable(
                self@,
                self@.campaign_ids,
                CampaignQuery::Matching(filter),
                capped(limit) as nat,
            ),
        ensures
            r@ == picked(
                self@,
                self@.campaign_ids,
                CampaignQuery::Matching(filter),
                capped(limit) as nat,
            ),
    {
        let limit = if limit < MAX_RESULTS {
            limit
        } else {
            MAX_RESULTS
        };
        let query = CampaignQuery::Matching(filter);
        assert(self@.campaign_ids.subrange(0, self@.campaign_ids.len() as int) =~= self@.campaign_ids);
        self.pick(0, self.campaign_ids.len(), &query, limit as usize)
    }

    /// All campaigns created by `creator`.
    pub fn get_campaigns_by_creator(&self, creator: AccountId) -> (r: Vec<CampaignSummary>)
        requires
            listable(self@, self@.campaign_ids, CampaignQuery::CreatedBy(creator)),
        ensures
            r@ == listed(self@, self@.campaign_ids, CampaignQuery::CreatedBy(creator)),
    {
        self.list_all(&CampaignQuery::CreatedBy(creator))
    }

    fn list_all(&self, query: &CampaignQuery) -> (r: Vec<CampaignSummary>)
        requires
            listable(self@, self@.campaign_ids, *query),
        ensures
            r@ == listed(self@, self@.campaign_ids, *query),
    {
        let ghost ids = self@.campaign_ids;
        assert(ids.subrange(0, ids.len() as int) =~= ids);
        proof {
            crate::discovery::lemma_listable_pickable(self@, ids, *query, ids.len());
        }
        self.pick(0, self.campaign_ids.len(), query, self.campaign_ids.len())
    }

    /// The `n` campaigns (at most 50) that raised the most, largest first;
    /// campaigns that raised the same keep their creation order.
    pub fn get_top_campaigns(&self, n: u64) -> (r: Vec<CampaignSummary>)
        requires
            listable(self@, self@.campaign_ids, CampaignQuery::All),
        ensures
            ({
                let ranked = by_raised_desc(listed(self@, self@.campaign_ids, CampaignQuery::All));
                r@ == ranked.take(
                    if capped(n) < ranked.len() {
                        capped(n) as int
                    } else {
                        ranked.len() as int
                    },
                )
            }),
    {
        let n = if n < MAX_RESULTS {
            n
        } else {
            MAX_RESULTS
        };
        let summaries = self.list_all(&CampaignQuery::All);
        let mut ranked = sort_by_raised_desc(summaries);
        ranked.truncate(n as usize);
        ranked
    }

    /// All campaigns with the given risk rating.
    pub fn get_campaigns_by_risk(&self, rating: RiskRating) -> (r: Vec<CampaignSummary>)
        requires
            listable(self@, self@.campaign_ids, CampaignQuery::RatedAs(rating)),
        ensures
            r@ == listed(self@, self@.campaign_ids, CampaignQuery::RatedAs(rating)),
    {
        self.list_all(&CampaignQuery::RatedAs(rating))
    }

    /// Active campaigns funded to at least `threshold_pct` percent.
    pub fn get_near_funded_campaigns(&self, threshold_pct: u32) -> (r: Vec<CampaignSummary>)
        requires
            listable(self@, self@.campaign_ids, CampaignQuery::NearFunded(threshold_pct)),
        ensures
            r@ == listed(self@, self@.campaign_ids, CampaignQuery::NearFunded(threshold_pct)),
    {
        self.list_all(&CampaignQuery::NearFunded(threshold_pct))
    }

    /// All campaigns `investor` has put money into.
    pub fn get_investor_campaigns(&self, investor: AccountId) -> (r: Vec<CampaignSummary>)
        requires
            listable(self@, self@.campaign_ids, CampaignQuery::InvestedBy(investor)),
        ensures
            r@ == listed(self@, self@.campaign_ids, CampaignQuery::InvestedBy(investor)),
    {
        self.list_all(&CampaignQuery::InvestedBy(investor))
    }

    /// Campaign counts by status: (draft, active, funded, closed, cancelled).
    pub fn get_campaign_stats(&self) -> (r: (u64, u64, u64, u64, u64))
        ensures
            (r.0 as nat, r.1 as nat, r.2 as nat, r.3 as nat, r.4 as nat) == status_counts(
                self@,
                self@.campaign_ids,
            ),
    {
        let ghost st = self@;
        let ghost ids = self@.campaign_ids;
        let mut draft: u64 = 0;
        let mut active: u64 = 0;
        let mut funded: u64 = 0;
        let mut closed: u64 = 0;
        let mut cancelled: u64 = 0;
        let mut i: usize = 0;
        while i < self.campaign_ids.len()
            invariant
                st == self@,
                ids == self@.campaign_ids,
                i <= ids.len(),
                draft == status_count(st, ids.take(i as int), CampaignStatus::Draft),
                active == status_count(st, ids.take(i as int), CampaignStatus::Active),
                funded == status_count(st, ids.take(i as int), CampaignStatus::Funded),
                closed == status_count(st, ids.take(i as int), CampaignStatus::Closed),
                cancelled == status_count(st, ids.take(i as int), CampaignStatus::Cancelled),
            decreases ids.len() - i,
        {
            proof {
                let next = ids.take(i + 1);
                assert(next.drop_last() =~= ids.take(i as int));
                assert(next.last() == ids[i as int]);
                crate::discovery::lemma_status_count_bounded(st, ids.take(i as int), CampaignStatus::Draft);
                crate::discovery::lemma_status_count_bounded(st, ids.take(i as int), CampaignStatus::Active);
                crate::discovery::lemma_status_count_bounded(st, ids.take(i as int), CampaignStatus::Funded);
                crate::discovery::lemma_status_count_bounded(st, ids.take(i as int), CampaignStatus::Closed);
                crate::discovery::lemma_status_count_bounded(
                    st,
                    ids.take(i as int),
                    CampaignStatus::Cancelled,
                );
            }
            let id = self.campaign_ids[i];
            if let Some(c) = self.campaigns.get(&id) {
                match c.status {
                    CampaignStatus::Draft => draft = draft + 1,
                    CampaignStatus::Active => active = active + 1,
                    CampaignStatus::Funded => funded = funded + 1,
                    CampaignStatus::Closed => closed = closed + 1,
                    CampaignStatus::Cancelled => cancelled = cancelled + 1,
                }
            }
            i = i + 1;
        }
        assert(ids.take(ids.len() as int) =~= ids);
        (draft, active, funded, closed, cancelled)
    }

    // ── Basic getters ────────────────────────────────────────

    pub fn get_campaign(&self, campaign_id: u64) -> (r: Option<Campaign>)
        ensures
            r == self@.campaigns.get(campaign_id),
    {
        match self.campaigns.get(&campaign_id) {
            Some(c) => Some(c.snapshot()),
            None => None,
        }
    }

    pub fn get_investment(&self, campaign_id: u64, investor: AccountId) -> (r: u128)
        ensures
            r == investment_of(self@, campaign_id, investor),
    {
        self.investment_amount(campaign_id, investor)
    }

    pub fn get_milestone(&self, milestone_id: u64) -> (r: Option<Milestone>)
        ensures
            r == self@.milestones.get(milestone_id),
    {
        match self.milestones.get(&milestone_id) {
            Some(m) => Some(m.snapshot()),
            None => None,
        }
    }

    pub fn get_proposal(&self, proposal_id: u64) -> (r: Option<Proposal>)
        ensures
            r == self@.proposals.get(proposal_id),
    {
        match self.proposals.get(&proposal_id) {
            Some(p) => Some(p.snapshot()),
            None => None,
        }
    }

    pub fn get_listing(&self, listing_id: u64) -> (r: Option<ShareListing>)
        ensures
            r == self@.listings.get(listing_id),
    {
        match self.listings.get(&listing_id) {
            Some(l) => Some(*l),
            None => None,
        }
    }

    pub fn get_risk_profile(&self, campaign_id: u64) -> (r: Option<RiskProfile>)
        ensures
            r == self@.risk_profiles.get(campaign_id),
    {
        match self.risk_profiles.get(&campaign_id) {
            Some(p) => Some(*p),
            None => None,
        }
    }

    pub fn get_shares(&self, campaign_id: u64, investor: AccountId) -> (r: u64)
        ensures
            r == shares_in(self@.share_holdings, campaign_id, investor),
    {
        self.holding(campaign_id, investor)
    }

    pub fn get_admin(&self) -> (r: AccountId)
        ensures
            r == self@.admin,
    {
        self.admin
    }

    /// Total number of campaigns ever created.
    pub fn get_campaign_count(&self) -> (r: u64)
        ensures
            r == self@.campaign_count,
    {
        self.campaign_count
    }

    /// The events emitted so far, oldest first.
    pub fn events(&self) -> (r: &Vec<Event>)
        ensures
            r@ == self@.events,
    {
        &self.events
    }

    /// Hands out the events emitted so far and clears the log.
    pub fn take_events(&mut self) -> (r: Vec<Event>)
        ensures
            r@ == old(self)@.events,
            final(self)@ == (CrowdfundingState { events: Seq::empty(), ..old(self)@ }),
    {
        let mut taken = Vec::new();
        std::mem::swap(&mut taken, &mut self.events);
        assert(self@ =~= (CrowdfundingState { events: Seq::empty(), ..old(self)@ }));
        taken
    }
}

impl Default for RealEstateCrowdfunding {
    /// A fresh contract administered by the all-zero account.
    fn default() -> (r: RealEstateCrowdfunding)
        ensures
            r@ == initial_state(r@.admin),
            forall|i: int| 0 <= i < 32 ==> r@.admin.0[i] == 0u8,
    {
        Self::new(AccountId::zero())
    }
}

} // verus!
