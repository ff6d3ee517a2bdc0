use propchain::crowdfunding::RealEstateCrowdfunding;
use propchain::types::{
    CampaignCreated, CampaignStatus, CrowdfundingError, Event, InvestmentMade, MilestoneApproved,
    MilestoneStatus, ProposalCreated, ProposalStatus, RiskRating, SharesListed,
};
use propchain::AccountId;

fn acct(b: u8) -> AccountId {
    AccountId::from([b; 32])
}

fn active_campaign(c: &mut RealEstateCrowdfunding, target: u128) -> u64 {
    let id = c.create_campaign(acct(1), "Campaign".into(), target).unwrap();
    c.activate_campaign(acct(1), id).unwrap();
    id
}

#[test]
fn campaign_ids_count_up_from_one() {
    let mut c = RealEstateCrowdfunding::new(acct(1));
    assert_eq!(c.create_campaign(acct(2), "A".into(), 10).unwrap(), 1);
    assert_eq!(c.create_campaign(acct(3), "B".into(), 20).unwrap(), 2);
    assert_eq!(c.get_campaign_count(), 2);
    let b = c.get_campaign(2).unwrap();
    assert_eq!(b.campaign_id, 2);
    assert_eq!(b.creator, acct(3));
    assert_eq!(b.title, "B");
    assert_eq!(b.raised_amount, 0);
    assert_eq!(b.status, CampaignStatus::Draft);
    assert_eq!(b.investor_count, 0);
    assert!(c.get_campaign(3).is_none());
    assert_eq!(c.get_admin(), acct(1));
}

#[test]
fn activate_is_for_creator_or_admin() {
    let mut c = RealEstateCrowdfunding::new(acct(1));
    let id = c.create_campaign(acct(2), "A".into(), 10).unwrap();
    assert_eq!(c.activate_campaign(acct(3), id), Err(CrowdfundingError::Unauthorized));
    assert_eq!(c.get_campaign(id).unwrap().status, CampaignStatus::Draft);
    assert_eq!(c.activate_campaign(acct(2), 99), Err(CrowdfundingError::CampaignNotFound));
    assert!(c.activate_campaign(acct(2), id).is_ok());
    let id2 = c.create_campaign(acct(2), "B".into(), 10).unwrap();
    assert!(c.activate_campaign(acct(1), id2).is_ok());
}

#[test]
fn invest_refusals() {
    let mut c = RealEstateCrowdfunding::new(acct(1));
    let draft = c.create_campaign(acct(1), "Draft".into(), 100).unwrap();
    assert_eq!(c.invest(acct(2), draft, 10), Err(CrowdfundingError::InvestorNotCompliant));
    c.onboard_investor(acct(2), "US".into(), false).unwrap();
    assert_eq!(c.invest(acct(2), 42, 10), Err(CrowdfundingError::CampaignNotFound));
    assert_eq!(c.invest(acct(2), draft, 10), Err(CrowdfundingError::CampaignNotActive));
    assert_eq!(c.get_investment(draft, acct(2)), 0);
    assert_eq!(c.get_shares(draft, acct(2)), 0);
    assert!(c.events().len() == 1);
}

#[test]
fn invest_accounting_and_shares() {
    let mut c = RealEstateCrowdfunding::new(acct(1));
    let id = active_campaign(&mut c, 10_000);
    c.onboard_investor(acct(2), "US".into(), true).unwrap();
    c.invest(acct(2), id, 2_500).unwrap();
    c.invest(acct(2), id, 999).unwrap();
    let camp = c.get_campaign(id).unwrap();
    assert_eq!(camp.raised_amount, 3_499);
    assert_eq!(camp.investor_count, 1);
    assert_eq!(camp.status, CampaignStatus::Active);
    assert_eq!(c.get_investment(id, acct(2)), 3_499);
    // 2 500 buys 2 shares, 999 buys none
    assert_eq!(c.get_shares(id, acct(2)), 2);
    c.onboard_investor(acct(3), "DE".into(), true).unwrap();
    c.invest(acct(3), id, 6_501).unwrap();
    let camp = c.get_campaign(id).unwrap();
    assert_eq!(camp.investor_count, 2);
    assert_eq!(camp.status, CampaignStatus::Funded);
    // a funded campaign takes no more money
    assert_eq!(c.invest(acct(3), id, 1), Err(CrowdfundingError::CampaignNotActive));
}

#[test]
fn events_are_recorded_in_order() {
    let mut c = RealEstateCrowdfunding::new(acct(1));
    let id = c.create_campaign(acct(1), "A".into(), 5_000).unwrap();
    c.activate_campaign(acct(1), id).unwrap();
    c.onboard_investor(acct(2), "US".into(), true).unwrap();
    c.invest(acct(2), id, 3_000).unwrap();
    let m = c.add_milestone(acct(1), id, "Roof".into(), 700).unwrap();
    c.approve_milestone(acct(1), m).unwrap();
    let p = c.create_proposal(id, "Sell".into()).unwrap();
    let l = c.list_shares(acct(2), id, 2, 10).unwrap();
    let events = c.take_events();
    assert_eq!(
        events,
        vec![
            Event::CampaignCreated(CampaignCreated { campaign_id: id, creator: acct(1), target_amount: 5_000 }),
            Event::InvestmentMade(InvestmentMade { campaign_id: id, investor: acct(2), amount: 3_000 }),
            Event::MilestoneApproved(MilestoneApproved { milestone_id: m, release_amount: 700 }),
            Event::ProposalCreated(ProposalCreated { proposal_id: p, campaign_id: id }),
            Event::SharesListed(SharesListed { listing_id: l, seller: acct(2), shares: 2 }),
        ]
    );
    assert!(c.events().is_empty());
}

#[test]
fn milestone_rules() {
    let mut c = RealEstateCrowdfunding::new(acct(1));
    let id = c.create_campaign(acct(2), "A".into(), 10).unwrap();
    assert_eq!(c.add_milestone(acct(3), id, "x".into(), 1), Err(CrowdfundingError::Unauthorized));
    assert_eq!(c.add_milestone(acct(2), 7, "x".into(), 1), Err(CrowdfundingError::CampaignNotFound));
    let m = c.add_milestone(acct(2), id, "Walls".into(), 5).unwrap();
    assert_eq!(m, 1);
    assert_eq!(c.get_milestone(m).unwrap().status, MilestoneStatus::Pending);
    assert_eq!(c.release_milestone(m), Err(CrowdfundingError::MilestoneNotApproved));
    assert_eq!(c.approve_milestone(acct(2), m), Err(CrowdfundingError::Unauthorized));
    assert_eq!(c.approve_milestone(acct(1), 9), Err(CrowdfundingError::MilestoneNotFound));
    assert_eq!(c.release_milestone(9), Err(CrowdfundingError::MilestoneNotFound));
    c.approve_milestone(acct(1), m).unwrap();
    assert_eq!(c.get_milestone(m).unwrap().status, MilestoneStatus::Approved);
    c.release_milestone(m).unwrap();
    assert_eq!(c.get_milestone(m).unwrap().status, MilestoneStatus::Released);
    // released once only
    assert_eq!(c.release_milestone(m), Err(CrowdfundingError::MilestoneNotApproved));
}

#[test]
fn profit_share_edge_cases() {
    let mut c = RealEstateCrowdfunding::new(acct(1));
    assert_eq!(c.distribute_profit(5, 1_000, acct(2)), 0);
    let zero = c.create_campaign(acct(1), "Zero".into(), 0).unwrap();
    assert_eq!(c.distribute_profit(zero, 1_000, acct(2)), 0);
    let id = active_campaign(&mut c, 3_000);
    c.onboard_investor(acct(2), "US".into(), true).unwrap();
    c.invest(acct(2), id, 1_000).unwrap();
    // 1 000 * 1 000 / 3 000, rounded down
    assert_eq!(c.distribute_profit(id, 1_000, acct(2)), 333);
    assert_eq!(c.distribute_profit(id, 1_000, acct(3)), 0);
}

#[test]
fn voting_rules() {
    let mut c = RealEstateCrowdfunding::new(acct(1));
    assert_eq!(c.create_proposal(3, "x".into()), Err(CrowdfundingError::CampaignNotFound));
    let id = c.create_campaign(acct(1), "A".into(), 10).unwrap();
    let p = c.create_proposal(id, "Refinance".into()).unwrap();
    assert_eq!(c.vote(acct(2), 77, true), Err(CrowdfundingError::ProposalNotFound));
    c.vote(acct(2), p, true).unwrap();
    assert_eq!(c.vote(acct(2), p, false), Err(CrowdfundingError::AlreadyVoted));
    c.vote(acct(3), p, false).unwrap();
    c.vote(acct(4), p, false).unwrap();
    let prop = c.get_proposal(p).unwrap();
    assert_eq!((prop.votes_for, prop.votes_against), (1, 2));
    assert_eq!(c.finalize_proposal(p), Ok(ProposalStatus::Rejected));
    assert_eq!(c.vote(acct(5), p, true), Err(CrowdfundingError::ProposalNotActive));
    assert_eq!(c.finalize_proposal(99), Err(CrowdfundingError::ProposalNotFound));
}

#[test]
fn a_tie_is_rejected_and_a_majority_passes() {
    let mut c = RealEstateCrowdfunding::new(acct(1));
    let id = c.create_campaign(acct(1), "A".into(), 10).unwrap();
    let tie = c.create_proposal(id, "tie".into()).unwrap();
    assert_eq!(c.finalize_proposal(tie), Ok(ProposalStatus::Rejected));
    let yes = c.create_proposal(id, "yes".into()).unwrap();
    c.vote(acct(2), yes, true).unwrap();
    assert_eq!(c.finalize_proposal(yes), Ok(ProposalStatus::Passed));
    assert_eq!(c.get_proposal(yes).unwrap().status, ProposalStatus::Passed);
}

#[test]
fn share_market_moves_shares() {
    let mut c = RealEstateCrowdfunding::new(acct(1));
    let id = active_campaign(&mut c, 1_000_000);
    c.onboard_investor(acct(2), "US".into(), true).unwrap();
    c.invest(acct(2), id, 40_000).unwrap();
    assert_eq!(c.list_shares(acct(2), id, 41, 5), Err(CrowdfundingError::InsufficientShares));
    let l = c.list_shares(acct(2), id, 15, 7).unwrap();
    assert_eq!(c.get_listing(l).unwrap().shares, 15);
    assert_eq!(c.buy_shares(acct(3), l), Ok(105));
    assert_eq!(c.get_shares(id, acct(2)), 25);
    assert_eq!(c.get_shares(id, acct(3)), 15);
    assert!(c.get_listing(l).is_none());
    assert_eq!(c.buy_shares(acct(3), l), Err(CrowdfundingError::ListingNotFound));
}

#[test]
fn buying_an_outdated_listing_saturates() {
    let mut c = RealEstateCrowdfunding::new(acct(1));
    let id = active_campaign(&mut c, 1_000_000);
    c.onboard_investor(acct(2), "US".into(), true).unwrap();
    c.invest(acct(2), id, 10_000).unwrap();
    let first = c.list_shares(acct(2), id, 10, 1).unwrap();
    let second = c.list_shares(acct(2), id, 10, 1).unwrap();
    c.buy_shares(acct(3), first).unwrap();
    c.buy_shares(acct(4), second).unwrap();
    assert_eq!(c.get_shares(id, acct(2)), 0);
    assert_eq!(c.get_shares(id, acct(3)), 10);
    assert_eq!(c.get_shares(id, acct(4)), 10);
}

#[test]
fn buying_ones_own_listing_keeps_the_holding() {
    let mut c = RealEstateCrowdfunding::new(acct(1));
    let id = active_campaign(&mut c, 1_000_000);
    c.onboard_investor(acct(2), "US".into(), true).unwrap();
    c.invest(acct(2), id, 8_000).unwrap();
    let l = c.list_shares(acct(2), id, 3, 2).unwrap();
    assert_eq!(c.buy_shares(acct(2), l), Ok(6));
    assert_eq!(c.get_shares(id, acct(2)), 8);
}

#[test]
fn risk_ratings() {
    let mut c = RealEstateCrowdfunding::new(acct(1));
    assert_eq!(c.assess_risk(acct(2), 1, 10, 90, 5), Err(CrowdfundingError::Unauthorized));
    assert!(c.get_risk_profile(1).is_none());
    c.assess_risk(acct(1), 1, 59, 75, 14).unwrap();
    assert_eq!(c.get_risk_profile(1).unwrap().rating, RiskRating::Low);
    c.assess_risk(acct(1), 2, 60, 75, 14).unwrap();
    assert_eq!(c.get_risk_profile(2).unwrap().rating, RiskRating::Medium);
    c.assess_risk(acct(1), 3, 79, 50, 29).unwrap();
    assert_eq!(c.get_risk_profile(3).unwrap().rating, RiskRating::Medium);
    c.assess_risk(acct(1), 4, 80, 50, 29).unwrap();
    assert_eq!(c.get_risk_profile(4).unwrap().rating, RiskRating::High);
    c.assess_risk(acct(1), 5, 10, 49, 0).unwrap();
    assert_eq!(c.get_risk_profile(5).unwrap().rating, RiskRating::High);
    let p = c.get_risk_profile(4).unwrap();
    assert_eq!((p.campaign_id, p.ltv_ratio, p.developer_score, p.market_volatility), (4, 80, 50, 29));
}

#[test]
fn default_contract_has_zero_admin() {
    let c = RealEstateCrowdfunding::default();
    assert_eq!(c.get_admin(), AccountId::from([0u8; 32]));
    assert_eq!(c.get_campaign_count(), 0);
    assert_eq!(c.get_campaign_stats(), (0, 0, 0, 0, 0));
}

#[test]
fn funded_campaign_refuses_until_reactivated() {
    let mut c = RealEstateCrowdfunding::new(acct(1));
    let id = active_campaign(&mut c, 1_000);
    c.onboard_investor(acct(2), "US".into(), true).unwrap();
    c.invest(acct(2), id, 1_000).unwrap();
    assert_eq!(c.get_campaign(id).unwrap().status, CampaignStatus::Funded);
    assert_eq!(c.invest(acct(2), id, 5), Err(CrowdfundingError::CampaignNotActive));
    assert_eq!(c.invest(acct(3), id, 5), Err(CrowdfundingError::InvestorNotCompliant));
    assert_eq!(c.get_campaign(id).unwrap().raised_amount, 1_000);
    assert_eq!(c.get_investment(id, acct(2)), 1_000);
    c.activate_campaign(acct(1), id).unwrap();
    c.invest(acct(2), id, 5).unwrap();
    let camp = c.get_campaign(id).unwrap();
    assert_eq!(camp.raised_amount, 1_005);
    assert_eq!(camp.status, CampaignStatus::Funded);
}

#[test]
fn books_balance() {
    let mut c = RealEstateCrowdfunding::new(acct(1));
    let id = active_campaign(&mut c, 1_000_000);
    let investors = [acct(2), acct(3), acct(4)];
    for (k, a) in investors.iter().enumerate() {
        c.onboard_investor(*a, "US".into(), true).unwrap();
        c.invest(*a, id, 1_000 * (k as u128 + 1)).unwrap();
    }
    c.invest(acct(3), id, 700).unwrap();
    let camp = c.get_campaign(id).unwrap();
    let total: u128 = investors.iter().map(|a| c.get_investment(id, *a)).sum();
    assert_eq!(camp.raised_amount, total);
    assert_eq!(total, 6_700);
    assert_eq!(camp.investor_count, 3);
}

#[test]
fn share_totals_are_conserved() {
    let mut c = RealEstateCrowdfunding::new(acct(1));
    let id = active_campaign(&mut c, 1_000_000);
    c.onboard_investor(acct(2), "US".into(), true).unwrap();
    c.onboard_investor(acct(3), "US".into(), true).unwrap();
    c.invest(acct(2), id, 30_000).unwrap();
    c.invest(acct(3), id, 12_000).unwrap();
    let holders = [acct(2), acct(3), acct(4)];
    let total = |c: &RealEstateCrowdfunding| -> u64 { holders.iter().map(|a| c.get_shares(id, *a)).sum() };
    assert_eq!(total(&c), 42);
    let l = c.list_shares(acct(2), id, 20, 1).unwrap();
    c.buy_shares(acct(4), l).unwrap();
    assert_eq!(total(&c), 42);
    assert_eq!(c.buy_shares(acct(4), l), Err(CrowdfundingError::ListingNotFound));
    assert_eq!(total(&c), 42);
}
