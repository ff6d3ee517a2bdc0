use propchain::crowdfunding::RealEstateCrowdfunding;
use propchain::discovery::sort_by_raised_desc;
use propchain::text::{contains_text, keyword_in_title};
use propchain::types::{CampaignFilter, CampaignStatus, CampaignSummary, RiskRating};
use propchain::AccountId;

fn acct(b: u8) -> AccountId {
    AccountId::from([b; 32])
}

fn open_filter() -> CampaignFilter {
    CampaignFilter {
        status: None,
        title_keyword: None,
        min_target: None,
        max_target: None,
        min_funded_pct: None,
        funded_only: false,
    }
}

fn summary(id: u64, raised: u128) -> CampaignSummary {
    CampaignSummary {
        campaign_id: id,
        creator: acct(1),
        title: format!("C{}", id),
        target_amount: 1_000,
        raised_amount: raised,
        funded_pct: 0,
        status: CampaignStatus::Active,
        investor_count: 0,
        risk_rating: RiskRating::Unrated,
    }
}

/// Campaigns 1..=4 with targets 1000, 2000, 3000, 4000; 2 and 3 active,
/// 3 funded to 50%.
fn market() -> RealEstateCrowdfunding {
    let mut c = RealEstateCrowdfunding::new(acct(1));
    c.create_campaign(acct(1), "Riverside Flats".into(), 1_000).unwrap();
    c.create_campaign(acct(2), "Old Mill".into(), 2_000).unwrap();
    c.create_campaign(acct(2), "RIVER Lodge".into(), 3_000).unwrap();
    c.create_campaign(acct(3), "Hilltop".into(), 4_000).unwrap();
    c.activate_campaign(acct(1), 2).unwrap();
    c.activate_campaign(acct(1), 3).unwrap();
    c.onboard_investor(acct(9), "US".into(), true).unwrap();
    c.invest(acct(9), 3, 1_500).unwrap();
    c
}

fn ids(v: &[CampaignSummary]) -> Vec<u64> {
    v.iter().map(|s| s.campaign_id).collect()
}

#[test]
fn empty_filter_matches_everything_up_to_the_limit() {
    let c = market();
    assert_eq!(ids(&c.search_campaigns(open_filter(), 10)), vec![1, 2, 3, 4]);
    assert_eq!(ids(&c.search_campaigns(open_filter(), 2)), vec![1, 2]);
    assert!(c.search_campaigns(open_filter(), 0).is_empty());
}

#[test]
fn keyword_is_matched_in_lower_case() {
    let c = market();
    let mut f = open_filter();
    f.title_keyword = Some("RiVeR".into());
    assert_eq!(ids(&c.search_campaigns(f, 10)), vec![1, 3]);
}

#[test]
fn target_and_funding_bounds() {
    let c = market();
    let mut f = open_filter();
    f.min_target = Some(2_000);
    f.max_target = Some(3_000);
    assert_eq!(ids(&c.search_campaigns(f, 10)), vec![2, 3]);
    let mut f = open_filter();
    f.min_funded_pct = Some(50);
    assert_eq!(ids(&c.search_campaigns(f, 10)), vec![3]);
    let mut f = open_filter();
    f.funded_only = true;
    assert!(c.search_campaigns(f, 10).is_empty());
}

#[test]
fn summaries_report_funding_and_rating() {
    let mut c = market();
    c.assess_risk(acct(1), 3, 70, 60, 20).unwrap();
    let s = c.get_campaigns_by_risk(RiskRating::Medium);
    assert_eq!(s.len(), 1);
    assert_eq!(s[0].campaign_id, 3);
    assert_eq!(s[0].funded_pct, 50);
    assert_eq!(s[0].raised_amount, 1_500);
    assert_eq!(s[0].investor_count, 1);
    assert_eq!(ids(&c.get_campaigns_by_risk(RiskRating::Unrated)), vec![1, 2, 4]);
}

#[test]
fn by_creator_and_investor() {
    let c = market();
    assert_eq!(ids(&c.get_campaigns_by_creator(acct(2))), vec![2, 3]);
    assert!(c.get_campaigns_by_creator(acct(5)).is_empty());
    assert_eq!(ids(&c.get_investor_campaigns(acct(9))), vec![3]);
}

#[test]
fn near_funded_only_active() {
    let c = market();
    assert_eq!(ids(&c.get_near_funded_campaigns(50)), vec![3]);
    assert_eq!(ids(&c.get_near_funded_campaigns(0)), vec![2, 3]);
}

#[test]
fn pages_tile_the_campaigns() {
    let c = market();
    assert_eq!(ids(&c.get_campaigns_paginated(0, 3)), vec![1, 2, 3]);
    assert_eq!(ids(&c.get_campaigns_paginated(1, 3)), vec![4]);
    assert!(c.get_campaigns_paginated(2, 3).is_empty());
    assert!(c.get_campaigns_paginated(0, 0).is_empty());
    assert_eq!(ids(&c.get_campaigns_paginated(0, 500)), vec![1, 2, 3, 4]);
}

#[test]
fn top_campaigns_rank_by_raised_keeping_ties_in_order() {
    let mut c = market();
    c.onboard_investor(acct(8), "US".into(), true).unwrap();
    c.invest(acct(8), 2, 1_500).unwrap();
    assert_eq!(ids(&c.get_top_campaigns(10)), vec![2, 3, 1, 4]);
    assert_eq!(ids(&c.get_top_campaigns(1)), vec![2]);
}

#[test]
fn ranking_is_a_stable_descending_sort() {
    let v = vec![summary(1, 5), summary(2, 9), summary(3, 5), summary(4, 0), summary(5, 9)];
    let sorted = sort_by_raised_desc(v);
    assert_eq!(ids(&sorted), vec![2, 5, 1, 3, 4]);
}

#[test]
fn stats_add_up() {
    let c = market();
    let (d, a, f, cl, ca) = c.get_campaign_stats();
    assert_eq!((d, a, f, cl, ca), (2, 2, 0, 0, 0));
    assert_eq!(d + a + f + cl + ca, c.get_campaign_count());
}

#[test]
fn text_search() {
    assert!(contains_text("harbor view", "bor v"));
    assert!(contains_text("harbor view", ""));
    assert!(contains_text("", ""));
    assert!(!contains_text("", "a"));
    assert!(!contains_text("abc", "abcd"));
    assert!(!contains_text("harbor", "Harbor"));
    assert!(contains_text("ééa", "éa"));
}

#[test]
fn keyword_search_lowers_both_sides() {
    assert!(keyword_in_title("Downtown Lofts", "DOWNTOWN"));
    assert!(keyword_in_title("downtown lofts", "Lofts"));
    assert!(keyword_in_title("ÉTÉ Plaza", "été"));
    assert!(!keyword_in_title("Downtown", "uptown"));
}

#[test]
fn risk_listings_partition_the_campaigns() {
    let mut c = market();
    c.assess_risk(acct(1), 1, 10, 90, 5).unwrap();
    c.assess_risk(acct(1), 4, 90, 10, 50).unwrap();
    let low = ids(&c.get_campaigns_by_risk(RiskRating::Low));
    let medium = ids(&c.get_campaigns_by_risk(RiskRating::Medium));
    let high = ids(&c.get_campaigns_by_risk(RiskRating::High));
    let unrated = ids(&c.get_campaigns_by_risk(RiskRating::Unrated));
    assert_eq!((low.clone(), medium.clone(), high.clone(), unrated.clone()), (vec![1], vec![], vec![4], vec![2, 3]));
    assert_eq!(low.len() + medium.len() + high.len() + unrated.len() as usize, c.get_campaign_count() as usize);
}

#[test]
fn no_campaign_is_closed_or_cancelled() {
    let mut c = market();
    c.onboard_investor(acct(7), "US".into(), true).unwrap();
    c.invest(acct(7), 2, 2_000).unwrap();
    let (d, a, f, cl, ca) = c.get_campaign_stats();
    assert_eq!((d, a, f, cl, ca), (2, 1, 1, 0, 0));
}
