//! Risk assessment of a trade from a portfolio, its performance and the market.

use vstd::prelude::*;

verus! {

/// A user's portfolio, opened only inside the computation boundary.
#[derive(Clone, Copy, Debug, PartialEq, Eq, Structural)]
pub struct PortfolioContext {
    pub total_capital: u64,
    pub current_exposure: u64,
    pub diversification_score: u8,
    /// Leverage, in basis points.
    pub leverage_ratio: u16,
}

/// A user's performance history, opened only inside the computation boundary.
#[derive(Clone, Copy, Debug, PartialEq, Eq, Structural)]
pub struct PerformanceHistory {
    pub total_pnl: i64,
    /// Sharpe ratio times 100.
    pub sharpe_ratio: i16,
    /// Maximum drawdown, in basis points.
    pub max_drawdown: u16,
    pub consistency_score: u8,
}

/// Public market conditions.
#[derive(Clone, Copy, Debug, PartialEq, Eq, Structural)]
pub struct MarketConditions {
    pub curve_volatility: u16,
    pub liquidity_risk: u8,
    pub market_sentiment: i8,
}

/// Assessment handed back to the owner of the portfolio.
#[derive(Clone, Copy, Debug, PartialEq, Eq, Structural)]
pub struct RiskAssessment {
    pub overall_risk_score: u8,
    pub portfolio_risk: u8,
    pub trade_risk: u8,
    /// 0 = proceed, 1 = caution, 2 = avoid.
    pub recommendation: u8,
}

/// Exposure against capital on a scale of 255; 255 where there is no capital.
pub open spec fn exposure_ratio(port: PortfolioContext) -> int {
    if port.total_capital > 0 {
        port.current_exposure * 255 / port.total_capital as int
    } else {
        255
    }
}

pub open spec fn portfolio_risk(port: PortfolioContext) -> int {
    let ratio = exposure_ratio(port);
    if ratio > 200 {
        255
    } else if ratio > 150 {
        200
    } else if port.diversification_score < 100 {
        150 + (100 - port.diversification_score)
    } else {
        100
    }
}

pub open spec fn trade_risk(market: MarketConditions) -> int {
    if market.curve_volatility > 500 {
        255
    } else if market.curve_volatility > 300 {
        200
    } else if market.liquidity_risk > 200 {
        180
    } else {
        100
    }
}

pub open spec fn performance_adjustment(perf: PerformanceHistory) -> int {
    if perf.total_pnl < 0 && perf.max_drawdown > 5000 {
        50
    } else if perf.sharpe_ratio > 100 && perf.consistency_score > 200 {
        -30
    } else {
        0
    }
}

/// Mean of the two risks plus the adjustment, clamped to `[0, 255]`.
pub open spec fn overall_risk(
    port: PortfolioContext,
    perf: PerformanceHistory,
    market: MarketConditions,
) -> int {
    let raw = (portfolio_risk(port) + trade_risk(market)) / 2 + performance_adjustment(perf);
    if raw < 0 {
        0
    } else if raw > 255 {
        255
    } else {
        raw
    }
}

/// 2 (avoid) above 200, 1 (caution) above 150, else 0 (proceed).
pub open spec fn recommendation_for(score: int) -> u8 {
    if score > 200 {
        2
    } else if score > 150 {
        1
    } else {
        0
    }
}

/// The assessment that the circuit computes.
pub open spec fn risk_assessment(
    port: PortfolioContext,
    perf: PerformanceHistory,
    market: MarketConditions,
) -> RiskAssessment {
    let overall = overall_risk(port, perf, market);
    RiskAssessment {
        overall_risk_score: overall as u8,
        portfolio_risk: portfolio_risk(port) as u8,
        trade_risk: trade_risk(market) as u8,
        recommendation: recommendation_for(overall),
    }
}

/// Scores the risk of a trade and recommends whether to go ahead.
pub fn confidential_risk_score(
    port: PortfolioContext,
    perf: PerformanceHistory,
    market: MarketConditions,
) -> (r: RiskAssessment)
    ensures
        r == risk_assessment(port, perf, market),
        0 <= overall_risk(port, perf, market) <= 255,
        r.overall_risk_score as int == overall_risk(port, perf, market),
        r.recommendation == recommendation_for(r.overall_risk_score as int),
        r.overall_risk_score > 200 ==> r.recommendation == 2,
        150 < r.overall_risk_score <= 200 ==> r.recommendation == 1,
        r.overall_risk_score <= 150 ==> r.recommendation == 0,
{
    let exposure_ratio: u128 = if port.total_capital > 0 {
        (port.current_exposure as u128) * 255 / (port.total_capital as u128)
    } else {
        255
    };
    let portfolio_risk: u8 = if exposure_ratio > 200 {
        255
    } else if exposure_ratio > 150 {
        200
    } else if port.diversification_score < 100 {
        150 + (100 - port.diversification_score)
    } else {
        100
    };
    let trade_risk: u8 = if market.curve_volatility > 500 {
        255
    } else if market.curve_volatility > 300 {
        200
    } else if market.liquidity_risk > 200 {
        180
    } else {
        100
    };
    let adjustment: i16 = if perf.total_pnl < 0 && perf.max_drawdown > 5000 {
        50
    } else if perf.sharpe_ratio > 100 && perf.consistency_score > 200 {
        -30
    } else {
        0
    };
    let base_risk = ((portfolio_risk as u16 + trade_risk as u16) / 2) as i16;
    let raw = base_risk + adjustment;
    let overall: u8 = if raw < 0 {
        0
    } else if raw > 255 {
        255
    } else {
        raw as u8
    };
    let recommendation: u8 = if overall > 200 {
        2
    } else if overall > 150 {
        1
    } else {
        0
    };
    RiskAssessment { overall_risk_score: overall, portfolio_risk, trade_risk, recommendation }
}

} // verus!
