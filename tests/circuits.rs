use evalys_mxe::curve::{
    confidential_curve_eval, CurveMetrics, ExecutionRecommendation, SizingPreferences,
    UserConstraints,
};
use evalys_mxe::gmpc::{evalys_gmpc_strategy, IntentInput, PlanOutput};
use evalys_mxe::multi_user::{
    confidential_multi_user_analytics, AggregatedMetrics, AggregationType, UserProfile,
};
use evalys_mxe::risk::{
    confidential_risk_score, MarketConditions, PerformanceHistory, PortfolioContext,
    RiskAssessment,
};
use evalys_mxe::strategy::{
    compute_risk_score, confidential_strategy_plan, CurveState, StrategyPlan, UserHistory,
    UserPreferences,
};

fn portfolio(capital: u64, exposure: u64, diversification: u8) -> PortfolioContext {
    PortfolioContext {
        total_capital: capital,
        current_exposure: exposure,
        diversification_score: diversification,
        leverage_ratio: 0,
    }
}

fn performance(pnl: i64, sharpe: i16, drawdown: u16, consistency: u8) -> PerformanceHistory {
    PerformanceHistory {
        total_pnl: pnl,
        sharpe_ratio: sharpe,
        max_drawdown: drawdown,
        consistency_score: consistency,
    }
}

fn market(volatility: u16, liquidity_risk: u8) -> MarketConditions {
    MarketConditions { curve_volatility: volatility, liquidity_risk, market_sentiment: 0 }
}

#[test]
fn risk_scenario_over_exposed_and_volatile() {
    let r = confidential_risk_score(
        portfolio(1000, 2500, 255),
        performance(-5, 0, 6000, 0),
        market(600, 0),
    );
    assert_eq!(
        r,
        RiskAssessment {
            overall_risk_score: 255,
            portfolio_risk: 255,
            trade_risk: 255,
            recommendation: 2,
        }
    );
}

#[test]
fn risk_without_capital_is_maximal_portfolio_risk() {
    let r = confidential_risk_score(portfolio(0, 0, 255), performance(0, 0, 0, 0), market(0, 0));
    assert_eq!(r.portfolio_risk, 255);
    assert_eq!(r.trade_risk, 100);
    assert_eq!(r.overall_risk_score, 177);
    assert_eq!(r.recommendation, 1);
}

#[test]
fn risk_high_exposure_band() {
    let r = confidential_risk_score(portfolio(255, 170, 255), performance(0, 0, 0, 0), market(400, 0));
    assert_eq!(r.portfolio_risk, 200);
    assert_eq!(r.trade_risk, 200);
    assert_eq!(r.overall_risk_score, 200);
    assert_eq!(r.recommendation, 1);
}

#[test]
fn risk_low_diversification_with_good_performance() {
    let r = confidential_risk_score(
        portfolio(1000, 0, 40),
        performance(10, 150, 0, 210),
        market(400, 0),
    );
    assert_eq!(r.portfolio_risk, 210);
    assert_eq!(r.trade_risk, 200);
    assert_eq!(r.overall_risk_score, 175);
    assert_eq!(r.recommendation, 1);
}

#[test]
fn risk_liquidity_risk_and_reasonable_exposure() {
    let r = confidential_risk_score(portfolio(1000, 100, 100), performance(0, 0, 0, 0), market(0, 250));
    assert_eq!(r.portfolio_risk, 100);
    assert_eq!(r.trade_risk, 180);
    assert_eq!(r.overall_risk_score, 140);
    assert_eq!(r.recommendation, 0);
}

#[test]
fn risk_recommendation_thresholds() {
    let at_150 = confidential_risk_score(portfolio(1000, 0, 100), performance(0, 0, 0, 0), market(400, 0));
    assert_eq!(at_150.overall_risk_score, 150);
    assert_eq!(at_150.recommendation, 0);
    let at_201 = confidential_risk_score(portfolio(1000, 0, 48), performance(0, 0, 0, 0), market(400, 0));
    assert_eq!(at_201.portfolio_risk, 202);
    assert_eq!(at_201.overall_risk_score, 201);
    assert_eq!(at_201.recommendation, 2);
}

#[test]
fn risk_exposure_ratio_does_not_overflow() {
    let r = confidential_risk_score(
        portfolio(u64::MAX, u64::MAX, 255),
        performance(0, 0, 0, 0),
        market(0, 0),
    );
    assert_eq!(r.portfolio_risk, 255);
}

fn prefs(size: u64, appetite: u8) -> UserPreferences {
    UserPreferences {
        desired_size: size,
        slippage_tolerance: 50,
        risk_appetite: appetite,
        preferred_hold_time: 600,
    }
}

fn history(pnl: i64, win_rate: u16) -> UserHistory {
    UserHistory { recent_pnl: pnl, win_rate, avg_hold_time: 300, total_trades: 10 }
}

fn curve_state(volatility: u16) -> CurveState {
    CurveState { current_price: 100, liquidity_depth: 1000, volatility, recent_volume: 0 }
}

#[test]
fn strategy_slices_by_size() {
    let small = confidential_strategy_plan(prefs(1_000_000_000, 0), history(0, 6000), curve_state(0));
    assert_eq!(small.num_slices, 3);
    assert_eq!(small.slice_size_base, 333_333_333);
    let medium = confidential_strategy_plan(prefs(1_000_000_001, 0), history(0, 6000), curve_state(0));
    assert_eq!(medium.num_slices, 5);
    assert_eq!(medium.slice_size_base, 200_000_000);
    let large = confidential_strategy_plan(prefs(10_000_000_001, 0), history(0, 6000), curve_state(0));
    assert_eq!(large.num_slices, 8);
    assert_eq!(large.slice_size_base, 1_250_000_000);
}

#[test]
fn strategy_negative_pnl_and_high_volatility() {
    let p = confidential_strategy_plan(prefs(1000, 100), history(-1, 9000), curve_state(600));
    assert_eq!(
        p,
        StrategyPlan {
            recommended_mode: 2,
            num_slices: 3,
            slice_size_base: 333,
            timing_window_sec: 60,
            risk_level: 210,
            max_notional: 1000,
        }
    );
}

#[test]
fn strategy_good_history_reduces_risk_saturating() {
    let p = confidential_strategy_plan(prefs(300, 10), history(0, 6000), curve_state(0));
    assert_eq!(p.risk_level, 0);
    assert_eq!(p.recommended_mode, 0);
    assert_eq!(p.timing_window_sec, 300);
    assert_eq!(p.slice_size_base, 100);
}

#[test]
fn strategy_low_win_rate_medium_volatility() {
    let p = confidential_strategy_plan(prefs(300, 120), history(0, 4000), curve_state(250));
    assert_eq!(p.risk_level, 175);
    assert_eq!(p.recommended_mode, 1);
    assert_eq!(p.timing_window_sec, 120);
}

#[test]
fn strategy_risk_caps_at_255() {
    assert_eq!(compute_risk_score(&prefs(1, 255), &history(-1, 0), &curve_state(65535)), 255);
    assert_eq!(compute_risk_score(&prefs(1, 120), &history(0, 4000), &curve_state(250)), 175);
}

#[test]
fn strategy_max_notional_multipliers() {
    let doubled = confidential_strategy_plan(prefs(1000, 255), history(-1, 7000), curve_state(0));
    assert_eq!(doubled.max_notional, 2000);
    let one_and_half = confidential_strategy_plan(prefs(1001, 160), history(0, 7000), curve_state(0));
    assert_eq!(one_and_half.max_notional, 1501);
    let appetite_only = confidential_strategy_plan(prefs(1000, 255), history(0, 6000), curve_state(0));
    assert_eq!(appetite_only.max_notional, 1500);
    let saturated = confidential_strategy_plan(prefs(u64::MAX, 255), history(0, 7000), curve_state(0));
    assert_eq!(saturated.max_notional, u64::MAX);
}

fn sizing(target: u64, min: u64, max: u64) -> SizingPreferences {
    SizingPreferences { target_size: target, min_size: min, max_size: max, capital_allocation_pct: 50 }
}

fn constraints(time: u32, priority: u8) -> UserConstraints {
    UserConstraints { max_slippage_bps: 100, time_constraint_sec: time, priority_level: priority }
}

fn curve(price: u64, change: i32, liquidity: u64, buy: u16, sell: u16) -> CurveMetrics {
    CurveMetrics {
        current_price: price,
        price_change_24h: change,
        liquidity_depth: liquidity,
        buy_pressure: buy,
        sell_pressure: sell,
    }
}

#[test]
fn curve_plenty_of_liquidity() {
    let r = confidential_curve_eval(sizing(500, 100, 1000), constraints(100, 255), curve(1000, 1500, 2001, 300, 100));
    assert_eq!(
        r,
        ExecutionRecommendation {
            recommended_size: 500,
            entry_price_target: 1010,
            execution_urgency: 227,
            optimal_timing: 60,
            confidence_score: 175,
        }
    );
}

#[test]
fn curve_limited_liquidity() {
    let r = confidential_curve_eval(sizing(500, 100, 1000), constraints(500, 100), curve(1000, -1500, 800, 100, 300));
    assert_eq!(
        r,
        ExecutionRecommendation {
            recommended_size: 600,
            entry_price_target: 990,
            execution_urgency: 75,
            optimal_timing: 500,
            confidence_score: 150,
        }
    );
}

#[test]
fn curve_very_limited_liquidity() {
    let r = confidential_curve_eval(sizing(500, 100, 1000), constraints(500, 250), curve(1000, 0, 50, 100, 100));
    assert_eq!(
        r,
        ExecutionRecommendation {
            recommended_size: 100,
            entry_price_target: 1000,
            execution_urgency: 175,
            optimal_timing: 300,
            confidence_score: 150,
        }
    );
}

#[test]
fn curve_target_clamped_to_max() {
    let r = confidential_curve_eval(sizing(5000, 100, 1000), constraints(10, 0), curve(1, 0, 3000, 0, 0));
    assert_eq!(r.recommended_size, 1000);
    assert!(r.recommended_size >= 100 && r.recommended_size <= 1000);
}

#[test]
fn curve_minimum_wins_when_bounds_cross() {
    let r = confidential_curve_eval(sizing(5000, 500, 100), constraints(10, 0), curve(1, 0, 50, 0, 0));
    assert_eq!(r.recommended_size, 500);
}

#[test]
fn curve_extreme_values_saturate() {
    let r = confidential_curve_eval(
        sizing(1, 0, u64::MAX),
        constraints(10, 0),
        curve(u64::MAX, i32::MIN, u64::MAX, u16::MAX, u16::MAX),
    );
    assert_eq!(r.recommended_size, 13835058055282163711);
    assert_eq!(r.entry_price_target, u64::MAX / 100 * 99 + (u64::MAX % 100) * 99 / 100);
    assert_eq!(r.confidence_score, 125);
    let up = confidential_curve_eval(sizing(1, 0, 10), constraints(10, 0), curve(u64::MAX, 2000, 0, 0, 0));
    assert_eq!(up.entry_price_target, u64::MAX);
}

fn intent(size: u64, risk: u8, privacy: u8, volatility: u16) -> IntentInput {
    IntentInput {
        max_size_sol: size,
        risk_level: risk,
        privacy_priority: privacy,
        market_price: 100,
        curve_position: 5000,
        volatility_score: volatility,
        avg_hold_time: 60,
        win_rate: 5000,
        max_dd: 1000,
    }
}

#[test]
fn gmpc_scenario_normal_risk_high_volatility() {
    let p = evalys_gmpc_strategy(intent(1000, 1, 0, 8000));
    assert_eq!(
        p,
        PlanOutput {
            recommended_size_sol: 560,
            slice_count: 3,
            time_window_sec: 60,
            mev_route: 0,
            privacy_mode: 0,
            risk_class: 1,
        }
    );
}

#[test]
fn gmpc_low_risk_calm_market() {
    let p = evalys_gmpc_strategy(intent(1000, 0, 2, 1000));
    assert_eq!(
        p,
        PlanOutput {
            recommended_size_sol: 500,
            slice_count: 7,
            time_window_sec: 38,
            mev_route: 1,
            privacy_mode: 2,
            risk_class: 0,
        }
    );
}

#[test]
fn gmpc_high_risk_classes() {
    let p = evalys_gmpc_strategy(intent(1000, 2, 1, 6000));
    assert_eq!(p.recommended_size_sol, 1000);
    assert_eq!(p.slice_count, 5);
    assert_eq!(p.mev_route, 1);
    assert_eq!(p.privacy_mode, 1);
    assert_eq!(p.risk_class, 2);
    assert_eq!(evalys_gmpc_strategy(intent(1000, 1, 0, 8001)).risk_class, 2);
    assert_eq!(evalys_gmpc_strategy(intent(1000, 0, 0, 5000)).risk_class, 1);
}

#[test]
fn gmpc_full_size_does_not_overflow() {
    assert_eq!(evalys_gmpc_strategy(intent(u64::MAX, 2, 0, 0)).recommended_size_sol, u64::MAX);
}

fn profile(hold: u32, win: u16, min: u64, max: u64, tolerance: u8) -> UserProfile {
    UserProfile {
        profile_id_hash: 0xabcdef,
        avg_hold_time: hold,
        win_rate: win,
        preferred_size_range_min: min,
        preferred_size_range_max: max,
        risk_tolerance: tolerance,
    }
}

#[test]
fn multi_user_empty_collection_is_all_zero() {
    let m = confidential_multi_user_analytics(&Vec::new(), AggregationType::MarketSentiment);
    assert_eq!(
        m,
        AggregatedMetrics {
            avg_hold_time: 0,
            avg_win_rate: 0,
            common_size_range_min: 0,
            common_size_range_max: 0,
            risk_distribution: [0, 0, 0],
            confidence_score: 0,
            sample_size: 0,
        }
    );
}

#[test]
fn multi_user_two_overlapping_profiles() {
    let profiles = vec![profile(100, 5000, 10, 100, 0), profile(200, 7000, 20, 50, 2)];
    let m = confidential_multi_user_analytics(&profiles, AggregationType::CurveInsights);
    assert_eq!(
        m,
        AggregatedMetrics {
            avg_hold_time: 150,
            avg_win_rate: 6000,
            common_size_range_min: 20,
            common_size_range_max: 50,
            risk_distribution: [1, 0, 1],
            confidence_score: 6000,
            sample_size: 2,
        }
    );
}

#[test]
fn multi_user_disjoint_ranges_and_five_samples() {
    let profiles = vec![
        profile(10, 1, 0, 10, 1),
        profile(10, 1, 20, 30, 1),
        profile(10, 1, 0, 100, 7),
        profile(11, 2, 0, 100, 0),
        profile(10, 1, 0, 100, 1),
    ];
    let m = confidential_multi_user_analytics(&profiles, AggregationType::PatternDetection);
    assert_eq!(m.sample_size, 5);
    assert_eq!(m.avg_hold_time, 10);
    assert_eq!(m.avg_win_rate, 1);
    assert_eq!(m.common_size_range_min, 20);
    assert_eq!(m.common_size_range_max, 10);
    assert_eq!(m.risk_distribution, [1, 3, 1]);
    assert_eq!(m.confidence_score, 5000);
}

#[test]
fn multi_user_ten_samples_full_confidence() {
    let profiles = vec![profile(u32::MAX, 10000, 5, 500, 2); 10];
    let m = confidential_multi_user_analytics(&profiles, AggregationType::CurveInsights);
    assert_eq!(m.sample_size, 10);
    assert_eq!(m.avg_hold_time, u32::MAX);
    assert_eq!(m.avg_win_rate, 10000);
    assert_eq!(m.risk_distribution, [0, 0, 10]);
    assert_eq!(m.confidence_score, 9000);
}

#[test]
fn multi_user_bucket_count_saturates() {
    let profiles = vec![profile(1, 1, 0, 1, 0); 65536];
    let m = confidential_multi_user_analytics(&profiles, AggregationType::CurveInsights);
    assert_eq!(m.sample_size, 65536);
    assert_eq!(m.risk_distribution, [65535, 0, 0]);
    assert_eq!(m.confidence_score, 9000);
}
