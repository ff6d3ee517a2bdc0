use vstd::prelude::*;

use crate::account::AccountId;

verus! {

/// Why the crowdfunding contract refused a request.
#[derive(Clone, Copy, Debug, PartialEq, Eq, Structural)]
pub enum CrowdfundingError {
    Unauthorized,
    CampaignNotFound,
    CampaignNotActive,
    InsufficientFunds,
    MilestoneNotFound,
    MilestoneNotApproved,
    InvestorNotCompliant,
    InsufficientShares,
    ListingNotFound,
    ProposalNotFound,
    ProposalNotActive,
    InvalidParameters,
    AlreadyVoted,
}

#[derive(Clone, Copy, Debug, PartialEq, Eq, Structural)]
pub enum CampaignStatus {
    Draft,
    Active,
    Funded,
    Closed,
    Cancelled,
}

#[derive(Clone, Copy, Debug, PartialEq, Eq, Structural)]
pub enum ComplianceStatus {
    Pending,
    Approved,
    Rejected,
}

#[derive(Clone, Copy, Debug, PartialEq, Eq, Structural)]
pub enum MilestoneStatus {
    Pending,
    Approved,
    Released,
}

#[derive(Clone, Copy, Debug, PartialEq, Eq, Structural)]
pub enum ProposalStatus {
    Active,
    Passed,
    Rejected,
}

#[derive(Clone, Copy, Debug, PartialEq, Eq, Structural)]
pub enum RiskRating {
    Low,
    Medium,
    High,
    Unrated,
}

#[derive(Clone, Debug, PartialEq)]
pub struct Campaign {
    pub campaign_id: u64,
    pub creator: AccountId,
    pub title: String,
    pub target_amount: u128,
    pub raised_amount: u128,
    pub status: CampaignStatus,
    pub investor_count: u32,
}

#[derive(Clone, Debug, PartialEq)]
pub struct InvestorProfile {
    pub investor: AccountId,
    pub kyc_status: ComplianceStatus,
    pub accredited: bool,
    pub jurisdiction: String,
}

#[derive(Clone, Debug, PartialEq)]
pub struct Milestone {
    pub milestone_id: u64,
    pub campaign_id: u64,
    pub description: String,
    pub release_amount: u128,
    pub status: MilestoneStatus,
}

#[derive(Clone, Debug, PartialEq)]
pub struct Proposal {
    pub proposal_id: u64,
    pub campaign_id: u64,
    pub description: String,
    pub votes_for: u64,
    pub votes_against: u64,
    pub status: ProposalStatus,
}

#[derive(Clone, Copy, Debug, PartialEq)]
pub struct ShareListing {
    pub listing_id: u64,
    pub seller: AccountId,
    pub campaign_id: u64,
    pub shares: u64,
    pub price_per_share: u128,
}

#[derive(Clone, Copy, Debug, PartialEq)]
pub struct RiskProfile {
    pub campaign_id: u64,
    pub ltv_ratio: u32,
    pub developer_score: u32,
    pub market_volatility: u32,
    pub rating: RiskRating,
}

/// Criteria of a campaign search; `None` (or `false`) leaves a criterion out.
#[derive(Clone, Debug, PartialEq)]
pub struct CampaignFilter {
    /// Status to match.
    pub status: Option<CampaignStatus>,
    /// Keyword that must appear in the title, compared in lower case.
    pub title_keyword: Option<String>,
    /// Minimum target amount.
    pub min_target: Option<u128>,
    /// Maximum target amount.
    pub max_target: Option<u128>,
    /// Minimum funding percentage.
    pub min_funded_pct: Option<u32>,
    /// Only fully funded campaigns.
    pub funded_only: bool,
}

/// What the discovery queries report of a campaign.
#[derive(Clone, Debug, PartialEq)]
pub struct CampaignSummary {
    pub campaign_id: u64,
    pub creator: AccountId,
    pub title: String,
    pub target_amount: u128,
    pub raised_amount: u128,
    pub funded_pct: u32,
    pub status: CampaignStatus,
    pub investor_count: u32,
    pub risk_rating: RiskRating,
}

#[derive(Clone, Copy, Debug, PartialEq)]
pub struct CampaignCreated {
    pub campaign_id: u64,
    pub creator: AccountId,
    pub target_amount: u128,
}

#[derive(Clone, Copy, Debug, PartialEq)]
pub struct InvestmentMade {
    pub campaign_id: u64,
    pub investor: AccountId,
    pub amount: u128,
}

#[derive(Clone, Copy, Debug, PartialEq)]
pub struct MilestoneApproved {
    pub milestone_id: u64,
    pub release_amount: u128,
}

#[derive(Clone, Copy, Debug, PartialEq)]
pub struct ProposalCreated {
    pub proposal_id: u64,
    pub campaign_id: u64,
}

#[derive(Clone, Copy, Debug, PartialEq)]
pub struct SharesListed {
    pub listing_id: u64,
    pub seller: AccountId,
    pub shares: u64,
}

/// An event emitted by the crowdfunding contract.
#[derive(Clone, Copy, Debug, PartialEq)]
pub enum Event {
    CampaignCreated(CampaignCreated),
    InvestmentMade(InvestmentMade),
    MilestoneApproved(MilestoneApproved),
    ProposalCreated(ProposalCreated),
    SharesListed(SharesListed),
}

impl Campaign {
    /// A copy of this campaign.
    pub fn snapshot(&self) -> (r: Campaign)
        ensures
            r == *self,
    {
        Campaign {
            campaign_id: self.campaign_id,
            creator: self.creator,
            title: self.title.clone(),
            target_amount: self.target_amount,
            raised_amount: self.raised_amount,
            status: self.status,
            investor_count: self.investor_count,
        }
    }
}

impl Milestone {
    /// A copy of this milestone.
    pub fn snapshot(&self) -> (r: Milestone)
        ensures
            r == *self,
    {
        Milestone {
            milestone_id: self.milestone_id,
            campaign_id: self.campaign_id,
            description: self.description.clone(),
            release_amount: self.release_amount,
            status: self.status,
        }
    }
}

impl Proposal {
    /// A copy of this proposal.
    pub fn snapshot(&self) -> (r: Proposal)
        ensures
            r == *self,
    {
        Proposal {
            proposal_id: self.proposal_id,
            campaign_id: self.campaign_id,
            description: self.description.clone(),
            votes_for: self.votes_for,
            votes_against: self.votes_against,
            status: self.status,
        }
    }
}

impl CampaignSummary {
    /// A copy of this summary.
    pub fn snapshot(&self) -> (r: CampaignSummary)
        ensures
            r == *self,
    {
        CampaignSummary {
            campaign_id: self.campaign_id,
            creator: self.creator,
            title: self.title.clone(),
            target_amount: self.target_amount,
            raised_amount: self.raised_amount,
            funded_pct: self.funded_pct,
            status: self.status,
            investor_count: self.investor_count,
            risk_rating: self.risk_rating,
        }
    }
}

} // verus!
