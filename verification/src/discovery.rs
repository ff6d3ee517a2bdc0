use vstd::prelude::*;

use crate::account::AccountId;
use crate::rules::{investment_of, CrowdfundingState};
use crate::text::{lowercase, occurs_in};
use crate::types::{Campaign, CampaignFilter, CampaignStatus, CampaignSummary, RiskRating};

verus! {

/// Most results a discovery query returns at once.
pub const MAX_RESULTS: u64 = 50;

/// The funding percentage of a campaign: raised * 100 / target (0 for a zero
/// target), kept to 32 bits.
pub open spec fn funded_pct_of(c: Campaign) -> u32 {
    if c.target_amount == 0 {
        0
    } else {
        ((c.raised_amount * 100) / (c.target_amount as int)) as u32
    }
}

/// Whether the funding percentage of `c` can be computed within `u128`.
pub open spec fn summarizable(c: Campaign) -> bool {
    c.target_amount != 0 ==> c.raised_amount * 100 <= u128::MAX
}

/// The risk rating recorded for campaign `campaign_id`, `Unrated` when none is.
pub open spec fn rating_of(st: CrowdfundingState, campaign_id: u64) -> RiskRating {
    if st.risk_profiles.contains_key(campaign_id) {
        st.risk_profiles[campaign_id].rating
    } else {
        RiskRating::Unrated
    }
}

/// The summary of campaign `c`.
pub open spec fn summary_of(st: CrowdfundingState, c: Campaign) -> CampaignSummary {
    CampaignSummary {
        campaign_id: c.campaign_id,
        creator: c.creator,
        title: c.title,
        target_amount: c.target_amount,
        raised_amount: c.raised_amount,
        funded_pct: funded_pct_of(c),
        status: c.status,
        investor_count: c.investor_count,
        risk_rating: rating_of(st, c.campaign_id),
    }
}

/// Whether a summary meets every criterion that the filter sets.
pub open spec fn matches_filter(s: CampaignSummary, f: CampaignFilter) -> bool {
    &&& (f.status matches Some(status) ==> s.status == status)
    &&& (f.title_keyword matches Some(k) ==> occurs_in(lowercase(k@), lowercase(s.title@)))
    &&& (f.min_target matches Some(min) ==> s.target_amount >= min)
    &&& (f.max_target matches Some(max) ==> s.target_amount <= max)
    &&& (f.min_funded_pct matches Some(min_pct) ==> s.funded_pct >= min_pct)
    &&& (f.funded_only ==> s.status == CampaignStatus::Funded)
}

/// Which campaigns a discovery query reports.
pub enum CampaignQuery {
    /// Every campaign.
    All,
    /// Campaigns that meet a filter.
    Matching(CampaignFilter),
    /// Campaigns created by an account.
    CreatedBy(AccountId),
    /// Campaigns with a given risk rating.
    RatedAs(RiskRating),
    /// Active campaigns funded to at least a percentage.
    NearFunded(u32),
    /// Campaigns an account has invested in.
    InvestedBy(AccountId),
}

/// Whether the query looks at the campaign stored under `id` at all (its
/// summary is computed only then).
pub open spec fn considers(st: CrowdfundingState, q: CampaignQuery, id: u64, c: Campaign) -> bool {
    match q {
        CampaignQuery::CreatedBy(creator) => c.creator == creator,
        CampaignQuery::InvestedBy(investor) => investment_of(st, id, investor) > 0,
        _ => true,
    }
}

/// Whether the query reports a summary it computed.
pub open spec fn reports(q: CampaignQuery, s: CampaignSummary) -> bool {
    match q {
        CampaignQuery::Matching(f) => matches_filter(s, f),
        CampaignQuery::RatedAs(rating) => s.risk_rating == rating,
        CampaignQuery::NearFunded(threshold) => s.status == CampaignStatus::Active
            && s.funded_pct >= threshold,
        _ => true,
    }
}

/// Whether the campaign stored under `id` is looked at by the query.
pub open spec fn candidate(st: CrowdfundingState, q: CampaignQuery, id: u64) -> bool {
    st.campaigns.contains_key(id) && considers(st, q, id, st.campaigns[id])
}

/// The summaries a query reports, walking `ids` in order and stopping once
/// `limit` are found.
pub open spec fn picked(st: CrowdfundingState, ids: Seq<u64>, q: CampaignQuery, limit: nat) -> Seq<
    CampaignSummary,
>
    decreases ids.len(),
{
    if ids.len() == 0 || limit == 0 {
        Seq::empty()
    } else if candidate(st, q, ids[0]) && reports(q, summary_of(st, st.campaigns[ids[0]])) {
        seq![summary_of(st, st.campaigns[ids[0]])] + picked(st, ids.drop_first(), q, (limit - 1) as nat)
    } else {
        picked(st, ids.drop_first(), q, limit)
    }
}

/// Whether every campaign that the walk of `picked` summarizes can be summarized.
pub open spec fn pickable(st: CrowdfundingState, ids: Seq<u64>, q: CampaignQuery, limit: nat) -> bool
    decreases ids.len(),
{
    if ids.len() == 0 || limit == 0 {
        true
    } else if candidate(st, q, ids[0]) {
        summarizable(st.campaigns[ids[0]]) && if reports(
            q,
            summary_of(st, st.campaigns[ids[0]]),
        ) {
            pickable(st, ids.drop_first(), q, (limit - 1) as nat)
        } else {
            pickable(st, ids.drop_first(), q, limit)
        }
    } else {
        pickable(st, ids.drop_first(), q, limit)
    }
}

/// Every summary the query reports over `ids`.
pub open spec fn listed(st: CrowdfundingState, ids: Seq<u64>, q: CampaignQuery) -> Seq<CampaignSummary> {
    picked(st, ids, q, ids.len())
}

/// Whether every campaign over `ids` that the query looks at can be summarized.
pub open spec fn listable(st: CrowdfundingState, ids: Seq<u64>, q: CampaignQuery) -> bool {
    forall|i: int|
        0 <= i < ids.len() && #[trigger] candidate(st, q, ids[i]) ==> summarizable(
            st.campaigns[ids[i]],
        )
}

/// When every campaign the query looks at can be summarized, any walk of it can.
pub proof fn lemma_listable_pickable(st: CrowdfundingState, ids: Seq<u64>, q: CampaignQuery, limit: nat)
    requires
        listable(st, ids, q),
    ensures
        pickable(st, ids, q, limit),
    decreases ids.len(),
{
    if ids.len() == 0 || limit == 0 {
    } else {
        let rest = ids.drop_first();
        assert forall|i: int| 0 <= i < rest.len() && #[trigger] candidate(st, q, rest[i]) implies summarizable(
            st.campaigns[rest[i]],
        ) by {
            assert(rest[i] == ids[i + 1]);
        }
        if candidate(st, q, ids[0]) {
            assert(summarizable(st.campaigns[ids[0]]));
        }
        lemma_listable_pickable(st, rest, q, limit);
        if limit > 0 {
            lemma_listable_pickable(st, rest, q, (limit - 1) as nat);
        }
    }
}

/// The ids shown on page `page` (0-based) of `page_size` ids.
pub open spec fn page_window(ids: Seq<u64>, page: u64, page_size: u64) -> Seq<u64> {
    let start = (page * page_size) as usize as int;
    let lo = if start < ids.len() {
        start
    } else {
        ids.len() as int
    };
    let hi = if lo + page_size < ids.len() {
        lo + page_size
    } else {
        ids.len() as int
    };
    ids.subrange(lo, hi)
}

/// The page size actually used: at most 50.
pub open spec fn capped(n: u64) -> u64 {
    if n < MAX_RESULTS {
        n
    } else {
        MAX_RESULTS
    }
}

/// How many of the campaigns stored under `ids` have the given status.
pub open spec fn status_count(st: CrowdfundingState, ids: Seq<u64>, status: CampaignStatus) -> nat
    decreases ids.len(),
{
    if ids.len() == 0 {
        0
    } else {
        status_count(st, ids.drop_last(), status) + if st.campaigns.contains_key(ids.last())
            && st.campaigns[ids.last()].status == status {
            1nat
        } else {
            0nat
        }
    }
}

/// The counts of campaigns by status: (draft, active, funded, closed, cancelled).
pub open spec fn status_counts(st: CrowdfundingState, ids: Seq<u64>) -> (nat, nat, nat, nat, nat) {
    (
        status_count(st, ids, CampaignStatus::Draft),
        status_count(st, ids, CampaignStatus::Active),
        status_count(st, ids, CampaignStatus::Funded),
        status_count(st, ids, CampaignStatus::Closed),
        status_count(st, ids, CampaignStatus::Cancelled),
    )
}

pub proof fn lemma_status_count_bounded(st: CrowdfundingState, ids: Seq<u64>, status: CampaignStatus)
    ensures
        status_count(st, ids, status) <= ids.len(),
    decreases ids.len(),
{
    if ids.len() > 0 {
        lemma_status_count_bounded(st, ids.drop_last(), status);
    }
}

/// Where `x` goes among summaries ordered by raised amount, largest first:
/// after every summary that raised at least as much.
pub open spec fn insertion_point(sorted: Seq<CampaignSummary>, x: CampaignSummary) -> nat
    decreases sorted.len(),
{
    if sorted.len() == 0 || sorted[0].raised_amount < x.raised_amount {
        0
    } else {
        1 + insertion_point(sorted.drop_first(), x)
    }
}

/// Summaries ordered by raised amount, largest first; summaries that raised
/// the same keep their order.
pub open spec fn by_raised_desc(s: Seq<CampaignSummary>) -> Seq<CampaignSummary>
    decreases s.len(),
{
    if s.len() == 0 {
        s
    } else {
        let sorted = by_raised_desc(s.drop_last());
        sorted.insert(insertion_point(sorted, s.last()) as int, s.last())
    }
}

/// Whether the summaries are ordered by raised amount, largest first.
pub open spec fn raised_descending(s: Seq<CampaignSummary>) -> bool {
    forall|i: int, j: int|
        0 <= i < j < s.len() ==> #[trigger] s[i].raised_amount >= #[trigger] s[j].raised_amount
}

/// Everything before the insertion point raised at least as much as `x`; what
/// stands at it raised less.
pub proof fn lemma_insertion_point(sorted: Seq<CampaignSummary>, x: CampaignSummary)
    ensures
        insertion_point(sorted, x) <= sorted.len(),
        forall|k: int|
            0 <= k < insertion_point(sorted, x) ==> #[trigger] sorted[k].raised_amount
                >= x.raised_amount,
        insertion_point(sorted, x) < sorted.len() ==> sorted[insertion_point(
            sorted,
            x,
        ) as int].raised_amount < x.raised_amount,
    decreases sorted.len(),
{
    if sorted.len() == 0 || sorted[0].raised_amount < x.raised_amount {
    } else {
        lemma_insertion_point(sorted.drop_first(), x);
        assert forall|k: int| 0 <= k < insertion_point(sorted, x) implies #[trigger] sorted[k].raised_amount
            >= x.raised_amount by {
            if k > 0 {
                assert(sorted[k] == sorted.drop_first()[k - 1]);
            }
        }
    }
}

/// Orders summaries by raised amount, largest first, keeping the order of
/// summaries that raised the same (an insertion sort).
pub fn sort_by_raised_desc(items: Vec<CampaignSummary>) -> (r: Vec<CampaignSummary>)
    ensures
        r@ == by_raised_desc(items@),
{
    let ghost all = items@;
    let mut rest = items;
    let mut sorted: Vec<CampaignSummary> = Vec::new();
    let n = rest.len();
    let mut i: usize = 0;
    assert(all.skip(0) =~= all);
    while i < n
        invariant
            n == all.len(),
            i <= n,
            rest@ == all.skip(i as int),
            sorted@ == by_raised_desc(all.take(i as int)),
        decreases n - i,
    {
        let x = rest.remove(0);
        assert(x == all[i as int]);
        let mut p: usize = 0;
        assert(sorted@.skip(0) =~= sorted@);
        while p < sorted.len() && sorted[p].raised_amount >= x.raised_amount
            invariant
                p <= sorted@.len(),
                insertion_point(sorted@, x) == p + insertion_point(sorted@.skip(p as int), x),
            decreases sorted@.len() - p,
        {
            assert(sorted@.skip(p as int).drop_first() =~= sorted@.skip(p + 1));
            assert(sorted@.skip(p as int)[0] == sorted@[p as int]);
            p = p + 1;
        }
        proof {
            if p < sorted@.len() {
                assert(sorted@.skip(p as int)[0] == sorted@[p as int]);
            }
            assert(insertion_point(sorted@.skip(p as int), x) == 0);
            assert(all.take(i + 1).drop_last() =~= all.take(i as int));
            assert(all.take(i + 1).last() == x);
            assert(rest@ =~= all.skip(i + 1));
        }
        sorted.insert(p, x);
        i = i + 1;
    }
    assert(all.take(n as int) =~= all);
    sorted
}

} // verus!
