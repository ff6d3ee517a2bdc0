use propchain::crowdfunding::RealEstateCrowdfunding;
use propchain::types::{CampaignFilter, CampaignStatus, RiskRating};
use propchain::AccountId;

fn alice() -> AccountId {
    AccountId::from([0x01; 32])
}

fn bob() -> AccountId {
    AccountId::from([0x02; 32])
}

fn charlie() -> AccountId {
    AccountId::from([0x03; 32])
}

fn setup() -> RealEstateCrowdfunding {
    RealEstateCrowdfunding::new(alice())
}

#[test]
fn test_create_campaign() {
    let mut contract = setup();
    let campaign_id = contract
        .create_campaign(alice(), "Downtown Lofts".into(), 1_000_000)
        .unwrap();
    assert_eq!(campaign_id, 1);
    let campaign = contract.get_campaign(1).unwrap();
    assert_eq!(campaign.target_amount, 1_000_000);
}

#[test]
fn test_activate_campaign() {
    let mut contract = setup();
    let campaign_id = contract
        .create_campaign(alice(), "Harbor View".into(), 500_000)
        .unwrap();
    assert!(contract.activate_campaign(alice(), campaign_id).is_ok());
    let campaign = contract.get_campaign(campaign_id).unwrap();
    assert_eq!(campaign.status, CampaignStatus::Active);
}

#[test]
fn test_invest_in_campaign() {
    let mut contract = setup();
    let campaign_id = contract
        .create_campaign(alice(), "Sunset Villas".into(), 100_000)
        .unwrap();
    contract.activate_campaign(alice(), campaign_id).unwrap();
    contract.onboard_investor(bob(), "US".into(), true).unwrap();
    assert!(contract.invest(bob(), campaign_id, 100_000).is_ok());
    let campaign = contract.get_campaign(campaign_id).unwrap();
    assert_eq!(campaign.status, CampaignStatus::Funded);
}

#[test]
fn test_milestone_workflow() {
    let mut contract = setup();
    let campaign_id = contract
        .create_campaign(alice(), "Park Place".into(), 200_000)
        .unwrap();
    let milestone_id = contract
        .add_milestone(alice(), campaign_id, "Foundation".into(), 50_000)
        .unwrap();
    assert!(contract.approve_milestone(alice(), milestone_id).is_ok());
    assert!(contract.release_milestone(milestone_id).is_ok());
}

#[test]
fn test_profit_distribution() {
    let mut contract = setup();
    let campaign_id = contract.create_campaign(alice(), "Test".into(), 100_000).unwrap();
    contract.activate_campaign(alice(), campaign_id).unwrap();
    contract.onboard_investor(bob(), "US".into(), true).unwrap();
    contract.invest(bob(), campaign_id, 60_000).unwrap();
    let payout = contract.distribute_profit(campaign_id, 10_000, bob());
    assert_eq!(payout, 6_000);
}

#[test]
fn test_governance_voting() {
    let mut contract = setup();
    let campaign_id = contract.create_campaign(alice(), "Test".into(), 100_000).unwrap();
    let proposal_id = contract
        .create_proposal(campaign_id, "Release funds".into())
        .unwrap();
    assert!(contract.vote(alice(), proposal_id, true).is_ok());
    assert!(contract.vote(bob(), proposal_id, true).is_ok());
}

#[test]
fn test_secondary_market() {
    let mut contract = setup();
    let campaign_id = contract.create_campaign(alice(), "Test".into(), 100_000).unwrap();
    contract.activate_campaign(alice(), campaign_id).unwrap();
    contract.onboard_investor(bob(), "US".into(), true).unwrap();
    contract.invest(bob(), campaign_id, 50_000).unwrap();
    let listing_id = contract.list_shares(bob(), campaign_id, 25, 1_000).unwrap();
    let cost = contract.buy_shares(charlie(), listing_id).unwrap();
    assert_eq!(cost, 25_000);
}

#[test]
fn test_risk_assessment() {
    let mut contract = setup();
    let campaign_id = contract.create_campaign(alice(), "Test".into(), 100_000).unwrap();
    assert!(contract.assess_risk(alice(), campaign_id, 50, 80, 10).is_ok());
    let profile = contract.get_risk_profile(campaign_id).unwrap();
    assert_eq!(profile.rating, RiskRating::Low);
}

#[test]
fn test_search_by_status() {
    let mut contract = setup();
    contract.create_campaign(alice(), "Alpha".into(), 100_000).unwrap();
    let id2 = contract.create_campaign(alice(), "Beta".into(), 200_000).unwrap();
    contract.activate_campaign(alice(), id2).unwrap();

    let filter = CampaignFilter {
        status: Some(CampaignStatus::Active),
        title_keyword: None,
        min_target: None,
        max_target: None,
        min_funded_pct: None,
        funded_only: false,
    };
    let results = contract.search_campaigns(filter, 10);
    assert_eq!(results.len(), 1);
    assert_eq!(results[0].title, "Beta");
}

#[test]
fn test_search_by_title_keyword() {
    let mut contract = setup();
    contract.create_campaign(alice(), "Downtown Lofts".into(), 100_000).unwrap();
    contract.create_campaign(alice(), "Harbor View".into(), 200_000).unwrap();

    let filter = CampaignFilter {
        status: None,
        title_keyword: Some("downtown".into()),
        min_target: None,
        max_target: None,
        min_funded_pct: None,
        funded_only: false,
    };
    let results = contract.search_campaigns(filter, 10);
    assert_eq!(results.len(), 1);
    assert_eq!(results[0].title, "Downtown Lofts");
}

#[test]
fn test_top_campaigns_sorted() {
    let mut contract = setup();

    let id1 = contract.create_campaign(alice(), "Small".into(), 100_000).unwrap();
    let id2 = contract.create_campaign(alice(), "Large".into(), 500_000).unwrap();
    contract.activate_campaign(alice(), id1).unwrap();
    contract.activate_campaign(alice(), id2).unwrap();

    contract.onboard_investor(bob(), "US".into(), true).unwrap();
    contract.invest(bob(), id1, 20_000).unwrap();
    contract.invest(bob(), id2, 300_000).unwrap();

    let top = contract.get_top_campaigns(2);
    assert_eq!(top[0].campaign_id, id2);
}

#[test]
fn test_near_funded_campaigns() {
    let mut contract = setup();

    let id = contract.create_campaign(alice(), "Almost There".into(), 100_000).unwrap();
    contract.activate_campaign(alice(), id).unwrap();

    contract.onboard_investor(bob(), "US".into(), true).unwrap();
    contract.invest(bob(), id, 90_000).unwrap();

    let near = contract.get_near_funded_campaigns(80);
    assert_eq!(near.len(), 1);
    assert_eq!(near[0].funded_pct, 90);
}

#[test]
fn test_get_campaign_stats() {
    let mut contract = setup();
    contract.create_campaign(alice(), "One".into(), 100_000).unwrap();
    let id2 = contract.create_campaign(alice(), "Two".into(), 200_000).unwrap();
    contract.activate_campaign(alice(), id2).unwrap();

    let (draft, active, funded, closed, cancelled) = contract.get_campaign_stats();
    assert_eq!(draft, 1);
    assert_eq!(active, 1);
    assert_eq!(funded, 0);
    assert_eq!(closed, 0);
    assert_eq!(cancelled, 0);
}

#[test]
fn test_investor_portfolio_discovery() {
    let mut contract = setup();

    let id1 = contract.create_campaign(alice(), "A".into(), 100_000).unwrap();
    let id2 = contract.create_campaign(alice(), "B".into(), 100_000).unwrap();
    contract.activate_campaign(alice(), id1).unwrap();
    contract.activate_campaign(alice(), id2).unwrap();

    contract.onboard_investor(bob(), "US".into(), true).unwrap();
    contract.invest(bob(), id1, 10_000).unwrap();

    let portfolio = contract.get_investor_campaigns(bob());
    assert_eq!(portfolio.len(), 1);
    assert_eq!(portfolio[0].campaign_id, id1);
}

#[test]
fn test_paginated_listing() {
    let mut contract = setup();
    for i in 0..5u64 {
        contract
            .create_campaign(alice(), format!("Campaign {}", i), 100_000)
            .unwrap();
    }
    let page0 = contract.get_campaigns_paginated(0, 3);
    let page1 = contract.get_campaigns_paginated(1, 3);
    assert_eq!(page0.len(), 3);
    assert_eq!(page1.len(), 2);
}

#[test]
fn test_campaigns_by_risk() {
    let mut contract = setup();
    let id = contract.create_campaign(alice(), "Low Risk".into(), 100_000).unwrap();
    contract.assess_risk(alice(), id, 50, 80, 10).unwrap(); // Low

    let results = contract.get_campaigns_by_risk(RiskRating::Low);
    assert_eq!(results.len(), 1);

    let results = contract.get_campaigns_by_risk(RiskRating::High);
    assert_eq!(results.len(), 0);
}
