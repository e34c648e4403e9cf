//! Aggregation of many users' profiles into one set of anonymous metrics.

use vstd::prelude::*;

verus! {

/// One user's anonymised profile, opened only inside the computation boundary.
#[derive(Clone, Copy, Debug, PartialEq, Eq, Structural)]
pub struct UserProfile {
    /// One-way hash of the profile's identity.
    pub profile_id_hash: u64,
    /// Average hold time, in seconds.
    pub avg_hold_time: u32,
    /// Win rate, in basis points.
    pub win_rate: u16,
    pub preferred_size_range_min: u64,
    pub preferred_size_range_max: u64,
    /// 0 = low, 1 = normal, anything else = high.
    pub risk_tolerance: u8,
}

/// What the aggregation is for; it does not change the arithmetic.
#[derive(Clone, Copy, Debug, PartialEq, Eq, Structural)]
pub enum AggregationType {
    CurveInsights,
    MarketSentiment,
    PatternDetection,
}

/// Metrics over a whole collection of profiles.
#[derive(Clone, Copy, Debug, PartialEq, Eq)]
pub struct AggregatedMetrics {
    pub avg_hold_time: u32,
    pub avg_win_rate: u16,
    /// Largest of the users' minimum sizes.
    pub common_size_range_min: u64,
    /// Smallest of the users' maximum sizes.
    pub common_size_range_max: u64,
    /// Users per risk tolerance (low, normal, high), each saturating at `u16::MAX`.
    pub risk_distribution: [u16; 3],
    /// Confidence in the aggregate, in basis points.
    pub confidence_score: u16,
    pub sample_size: u32,
}

pub open spec fn total_hold_time(s: Seq<UserProfile>) -> nat
    decreases s.len(),
{
    if s.len() == 0 {
        0
    } else {
        total_hold_time(s.drop_last()) + s.last().avg_hold_time as nat
    }
}

pub open spec fn total_win_rate(s: Seq<UserProfile>) -> nat
    decreases s.len(),
{
    if s.len() == 0 {
        0
    } else {
        total_win_rate(s.drop_last()) + s.last().win_rate as nat
    }
}

/// Largest preferred minimum size; 0 for no profiles.
pub open spec fn max_of_mins(s: Seq<UserProfile>) -> u64
    decreases s.len(),
{
    if s.len() == 0 {
        0
    } else {
        let rest = max_of_mins(s.drop_last());
        let m = s.last().preferred_size_range_min;
        if m > rest {
            m
        } else {
            rest
        }
    }
}

/// Smallest preferred maximum size; 0 for no profiles.
pub open spec fn min_of_maxes(s: Seq<UserProfile>) -> u64
    decreases s.len(),
{
    if s.len() == 0 {
        0
    } else if s.len() == 1 {
        s[0].preferred_size_range_max
    } else {
        let rest = min_of_maxes(s.drop_last());
        let m = s.last().preferred_size_range_max;
        if m < rest {
            m
        } else {
            rest
        }
    }
}

/// Index of the risk bucket that a tolerance falls in.
pub open spec fn risk_bucket(risk_tolerance: u8) -> int {
    if risk_tolerance == 0 {
        0
    } else if risk_tolerance == 1 {
        1
    } else {
        2
    }
}

/// Number of profiles whose tolerance falls in `bucket`.
pub open spec fn bucket_count(s: Seq<UserProfile>, bucket: int) -> nat
    decreases s.len(),
{
    if s.len() == 0 {
        0
    } else {
        bucket_count(s.drop_last(), bucket) + if risk_bucket(s.last().risk_tolerance) == bucket {
            1nat
        } else {
            0nat
        }
    }
}

/// A count as the output holds it: saturating at `u16::MAX`.
pub open spec fn saturated_count(c: nat) -> u16 {
    if c > u16::MAX {
        u16::MAX
    } else {
        c as u16
    }
}

pub open spec fn consistency_score(common_min: u64, common_max: u64) -> int {
    if common_max > common_min {
        8000
    } else {
        3000
    }
}

pub open spec fn sample_confidence(n: int) -> int {
    if n >= 10 {
        10000
    } else if n >= 5 {
        7000
    } else {
        4000
    }
}

/// The metrics for a non-empty collection.
pub open spec fn aggregate(s: Seq<UserProfile>) -> AggregatedMetrics {
    let n = s.len() as int;
    let common_min = max_of_mins(s);
    let common_max = min_of_maxes(s);
    AggregatedMetrics {
        avg_hold_time: (total_hold_time(s) as int / n) as u32,
        avg_win_rate: (total_win_rate(s) as int / n) as u16,
        common_size_range_min: common_min,
        common_size_range_max: common_max,
        risk_distribution: [
            saturated_count(bucket_count(s, 0)),
            saturated_count(bucket_count(s, 1)),
            saturated_count(bucket_count(s, 2)),
        ],
        confidence_score: ((consistency_score(common_min, common_max) + sample_confidence(n))
            / 2) as u16,
        sample_size: n as u32,
    }
}

/// The all-zero metrics that stand for an empty collection.
pub open spec fn empty_metrics() -> AggregatedMetrics {
    AggregatedMetrics {
        avg_hold_time: 0,
        avg_win_rate: 0,
        common_size_range_min: 0,
        common_size_range_max: 0,
        risk_distribution: [0, 0, 0],
        confidence_score: 0,
        sample_size: 0,
    }
}

proof fn lemma_totals_bounded(s: Seq<UserProfile>)
    ensures
        total_hold_time(s) <= s.len() * (u32::MAX as nat),
        total_win_rate(s) <= s.len() * (u16::MAX as nat),
    decreases s.len(),
{
    if s.len() > 0 {
        lemma_totals_bounded(s.drop_last());
        assert(s.len() * (u32::MAX as nat) == (s.len() - 1) * (u32::MAX as nat) + (u32::MAX as nat))
            by (nonlinear_arith);
        assert(s.len() * (u16::MAX as nat) == (s.len() - 1) * (u16::MAX as nat) + (u16::MAX as nat))
            by (nonlinear_arith);
    }
}

/// Aggregates a collection of profiles; an empty collection gives all-zero metrics.
pub fn confidential_multi_user_analytics(
    profiles: &Vec<UserProfile>,
    aggregation_type: AggregationType,
) -> (r: AggregatedMetrics)
    requires
        profiles.len() <= u32::MAX,
    ensures
        profiles.len() == 0 ==> r == empty_metrics(),
        profiles.len() > 0 ==> r == aggregate(profiles@),
        r.sample_size == profiles.len(),
{
    let n = profiles.len();
    if n == 0 {
        return AggregatedMetrics {
            avg_hold_time: 0,
            avg_win_rate: 0,
            common_size_range_min: 0,
            common_size_range_max: 0,
            risk_distribution: [0, 0, 0],
            confidence_score: 0,
            sample_size: 0,
        };
    }
    let mut total_hold: u64 = 0;
    let mut total_win: u64 = 0;
    let mut common_min: u64 = 0;
    let mut common_max: u64 = profiles[0].preferred_size_range_max;
    let mut low: u16 = 0;
    let mut normal: u16 = 0;
    let mut high: u16 = 0;
    let mut i: usize = 0;
    while i < n
        invariant
            n == profiles.len(),
            0 < n <= u32::MAX,
            i <= n,
            total_hold == total_hold_time(profiles@.subrange(0, i as int)),
            total_win == total_win_rate(profiles@.subrange(0, i as int)),
            common_min == max_of_mins(profiles@.subrange(0, i as int)),
            i > 0 ==> common_max == min_of_maxes(profiles@.subrange(0, i as int)),
            i == 0 ==> common_max == profiles@[0].preferred_size_range_max,
            low == saturated_count(bucket_count(profiles@.subrange(0, i as int), 0)),
            normal == saturated_count(bucket_count(profiles@.subrange(0, i as int), 1)),
            high == saturated_count(bucket_count(profiles@.subrange(0, i as int), 2)),
        decreases n - i,
    {
        let p = profiles[i];
        let ghost prefix = profiles@.subrange(0, i as int);
        let ghost next = profiles@.subrange(0, i + 1);
        assert(next.drop_last() =~= prefix);
        proof {
            lemma_totals_bounded(next);
            assert(next.len() * (u32::MAX as nat) <= u32::MAX * (u32::MAX as nat))
                by (nonlinear_arith)
                requires
                    next.len() <= u32::MAX,
            ;
            assert(next.len() * (u16::MAX as nat) <= u32::MAX * (u16::MAX as nat))
                by (nonlinear_arith)
                requires
                    next.len() <= u32::MAX,
            ;
        }
        total_hold = total_hold + p.avg_hold_time as u64;
        total_win = total_win + p.win_rate as u64;
        if p.preferred_size_range_min > common_min {
            common_min = p.preferred_size_range_min;
        }
        if i > 0 && p.preferred_size_range_max < common_max {
            common_max = p.preferred_size_range_max;
        }
        if p.risk_tolerance == 0 {
            low = low.saturating_add(1);
        } else if p.risk_tolerance == 1 {
            normal = normal.saturating_add(1);
        } else {
            high = high.saturating_add(1);
        }
        i = i + 1;
    }
    assert(profiles@.subrange(0, n as int) =~= profiles@);
    proof {
        lemma_totals_bounded(profiles@);
        assert(total_hold_time(profiles@) / (n as nat) <= u32::MAX) by (nonlinear_arith)
            requires
                total_hold_time(profiles@) <= n * (u32::MAX as nat),
                n > 0,
        ;
        assert(total_win_rate(profiles@) / (n as nat) <= u16::MAX) by (nonlinear_arith)
            requires
                total_win_rate(profiles@) <= n * (u16::MAX as nat),
                n > 0,
        ;
    }
    let sample_size = n as u32;
    let avg_hold_time = (total_hold / (n as u64)) as u32;
    let avg_win_rate = (total_win / (n as u64)) as u16;
    let consistency: u16 = if common_max > common_min {
        8000
    } else {
        3000
    };
    let sample_conf: u16 = if sample_size >= 10 {
        10000
    } else if sample_size >= 5 {
        7000
    } else {
        4000
    };
    AggregatedMetrics {
        avg_hold_time,
        avg_win_rate,
        common_size_range_min: common_min,
        common_size_range_max: common_max,
        risk_distribution: [low, normal, high],
        confidence_score: (consistency + sample_conf) / 2,
        sample_size,
    }
}

} // verus!
