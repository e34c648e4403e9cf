//! Execution strategy from a user's preferences, history and the curve's state.

use vstd::prelude::*;

verus! {

/// A user's preferences, opened only inside the computation boundary.
#[derive(Clone, Copy, Debug, PartialEq, Eq, Structural)]
pub struct UserPreferences {
    pub desired_size: u64,
    /// Slippage tolerance, in basis points.
    pub slippage_tolerance: u16,
    /// 0 = conservative, 255 = aggressive.
    pub risk_appetite: u8,
    /// Preferred hold time, in seconds.
    pub preferred_hold_time: u32,
}

/// A user's trading history, opened only inside the computation boundary.
#[derive(Clone, Copy, Debug, PartialEq, Eq, Structural)]
pub struct UserHistory {
    pub recent_pnl: i64,
    /// Win rate, in basis points.
    pub win_rate: u16,
    /// Average hold time, in seconds.
    pub avg_hold_time: u32,
    pub total_trades: u32,
}

/// Public state of the curve.
#[derive(Clone, Copy, Debug, PartialEq, Eq, Structural)]
pub struct CurveState {
    pub current_price: u64,
    pub liquidity_depth: u64,
    pub volatility: u16,
    pub recent_volume: u64,
}

/// Plan handed back to the owner of the preferences.
#[derive(Clone, Copy, Debug, PartialEq, Eq, Structural)]
pub struct StrategyPlan {
    /// 0 = normal, 1 = stealth, 2 = maximum privacy.
    pub recommended_mode: u8,
    pub num_slices: u8,
    pub slice_size_base: u64,
    pub timing_window_sec: u32,
    pub risk_level: u8,
    pub max_notional: u64,
}

/// Risk from the user's appetite and history, before volatility is added.
pub open spec fn history_risk(prefs: UserPreferences, hist: UserHistory) -> int {
    let appetite = prefs.risk_appetite as int;
    if hist.recent_pnl < 0 {
        appetite + 50
    } else if hist.win_rate < 5000 {
        appetite + 30
    } else if appetite >= 20 {
        appetite - 20
    } else {
        0
    }
}

/// History risk plus a tenth of the volatility, capped at 255.
pub open spec fn risk_score(prefs: UserPreferences, hist: UserHistory, curve: CurveState) -> int {
    let total = history_risk(prefs, hist) + curve.volatility / 10;
    if total > 255 {
        255
    } else {
        total
    }
}

pub open spec fn mode_for(risk: int) -> u8 {
    if risk > 200 {
        2
    } else if risk > 100 {
        1
    } else {
        0
    }
}

pub open spec fn slices_for(desired_size: u64) -> u8 {
    if desired_size > 10_000_000_000 {
        8
    } else if desired_size > 1_000_000_000 {
        5
    } else {
        3
    }
}

pub open spec fn window_for(volatility: u16) -> u32 {
    if volatility > 500 {
        60
    } else if volatility > 200 {
        120
    } else {
        300
    }
}

/// Twice the desired size for an aggressive user with a good record, one and a half
/// times for a moderately aggressive one, else the desired size; saturating at
/// `u64::MAX`.
pub open spec fn max_notional(prefs: UserPreferences, hist: UserHistory) -> int {
    let d = prefs.desired_size as int;
    let n = if prefs.risk_appetite > 200 && hist.win_rate > 6000 {
        2 * d
    } else if prefs.risk_appetite > 150 {
        d * 3 / 2
    } else {
        d
    };
    if n > u64::MAX {
        u64::MAX as int
    } else {
        n
    }
}

/// The plan that the circuit computes.
pub open spec fn strategy_plan(
    prefs: UserPreferences,
    hist: UserHistory,
    curve: CurveState,
) -> StrategyPlan {
    let risk = risk_score(prefs, hist, curve);
    StrategyPlan {
        recommended_mode: mode_for(risk),
        num_slices: slices_for(prefs.desired_size),
        slice_size_base: (prefs.desired_size / slices_for(prefs.desired_size) as u64) as u64,
        timing_window_sec: window_for(curve.volatility),
        risk_level: risk as u8,
        max_notional: max_notional(prefs, hist) as u64,
    }
}

/// Risk score in `[0, 255]` from the user's appetite, history and the volatility.
pub fn compute_risk_score(prefs: &UserPreferences, hist: &UserHistory, curve: &CurveState) -> (r:
    u16)
    ensures
        r as int == risk_score(*prefs, *hist, *curve),
        r <= 255,
{
    let appetite = prefs.risk_appetite as u16;
    let history_risk: u16 = if hist.recent_pnl < 0 {
        appetite + 50
    } else if hist.win_rate < 5000 {
        appetite + 30
    } else {
        appetite.saturating_sub(20)
    };
    let volatility_risk = curve.volatility / 10;
    let total = history_risk + volatility_risk;
    if total > 255 {
        255
    } else {
        total
    }
}

/// Plans privacy mode, slicing, timing and notional for one execution.
pub fn confidential_strategy_plan(prefs: UserPreferences, hist: UserHistory, curve: CurveState) -> (r:
    StrategyPlan)
    ensures
        r == strategy_plan(prefs, hist, curve),
        r.num_slices == 3 || r.num_slices == 5 || r.num_slices == 8,
        r.slice_size_base == prefs.desired_size / (r.num_slices as u64),
{
    let risk = compute_risk_score(&prefs, &hist, &curve);
    let recommended_mode: u8 = if risk > 200 {
        2
    } else if risk > 100 {
        1
    } else {
        0
    };
    let num_slices: u8 = if prefs.desired_size > 10_000_000_000 {
        8
    } else if prefs.desired_size > 1_000_000_000 {
        5
    } else {
        3
    };
    let slice_size_base = prefs.desired_size / (num_slices as u64);
    let timing_window_sec: u32 = if curve.volatility > 500 {
        60
    } else if curve.volatility > 200 {
        120
    } else {
        300
    };
    let d = prefs.desired_size;
    let max_notional = if prefs.risk_appetite > 200 && hist.win_rate > 6000 {
        d.saturating_add(d)
    } else if prefs.risk_appetite > 150 {
        d.saturating_add(d / 2)
    } else {
        d
    };
    StrategyPlan {
        recommended_mode,
        num_slices,
        slice_size_base,
        timing_window_sec,
        risk_level: risk as u8,
        max_notional,
    }
}

} // verus!
