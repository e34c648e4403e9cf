//! Execution planning from a single sealed intent.

use vstd::prelude::*;

verus! {

/// Intent of one user, opened only inside the computation boundary.
#[derive(Clone, Copy, Debug, PartialEq, Eq, Structural)]
pub struct IntentInput {
    /// Largest size the user will commit, in lamports.
    pub max_size_sol: u64,
    /// 0 = low, 1 = normal, 2 = high.
    pub risk_level: u8,
    /// 0 = normal, 1 = stealth, 2 = maximum privacy.
    pub privacy_priority: u8,
    pub market_price: u64,
    /// Position on the bonding curve, in basis points.
    pub curve_position: u16,
    /// Volatility score, in basis points.
    pub volatility_score: u16,
    /// Average hold time, in seconds.
    pub avg_hold_time: u32,
    /// Win rate, in basis points.
    pub win_rate: u16,
    /// Maximum drawdown, in basis points.
    pub max_dd: u16,
}

/// Execution plan handed back to the owner of the intent.
#[derive(Clone, Copy, Debug, PartialEq, Eq, Structural)]
pub struct PlanOutput {
    pub recommended_size_sol: u64,
    pub slice_count: u8,
    pub time_window_sec: u32,
    /// 0 = standard, 1 = bundled, 2 = private route.
    pub mev_route: u8,
    /// 0 = normal, 1 = stealth, 2 = maximum privacy.
    pub privacy_mode: u8,
    /// 0 = low, 1 = balanced, 2 = high.
    pub risk_class: u8,
}

/// Share of the maximum size kept for a risk level, in percent.
pub open spec fn risk_factor(risk_level: u8) -> int {
    if risk_level == 0 {
        50
    } else if risk_level == 1 {
        80
    } else {
        100
    }
}

/// Share of the size kept under a volatility score, in percent.
pub open spec fn volatility_penalty(volatility_score: u16) -> int {
    if volatility_score > 7000 {
        70
    } else {
        100
    }
}

pub open spec fn recommended_size(input: IntentInput) -> int {
    input.max_size_sol * risk_factor(input.risk_level) * volatility_penalty(input.volatility_score)
        / 10000
}

pub open spec fn slice_count_for(privacy_priority: u8) -> u8 {
    if privacy_priority == 0 {
        3
    } else if privacy_priority == 1 {
        5
    } else {
        7
    }
}

pub open spec fn risk_class_for(risk_level: u8, volatility_score: u16) -> u8 {
    if risk_level == 0 && volatility_score < 5000 {
        0
    } else if risk_level == 2 || volatility_score > 8000 {
        2
    } else {
        1
    }
}

/// The plan that the circuit computes for an intent.
pub open spec fn gmpc_plan(input: IntentInput) -> PlanOutput {
    PlanOutput {
        recommended_size_sol: recommended_size(input) as u64,
        slice_count: slice_count_for(input.privacy_priority),
        time_window_sec: if input.volatility_score > 7000 { 60 } else { 38 },
        mev_route: if input.privacy_priority >= 1 { 1 } else { 0 },
        privacy_mode: if input.privacy_priority == 0 {
            0
        } else if input.privacy_priority == 1 {
            1
        } else {
            2
        },
        risk_class: risk_class_for(input.risk_level, input.volatility_score),
    }
}

/// Plans size, slicing, timing and routing for one intent.
pub fn evalys_gmpc_strategy(input: IntentInput) -> (r: PlanOutput)
    ensures
        r == gmpc_plan(input),
        r.recommended_size_sol as int == recommended_size(input),
        r.recommended_size_sol <= input.max_size_sol,
{
    let base = input.max_size_sol;
    let risk_factor: u64 = if input.risk_level == 0 {
        50
    } else if input.risk_level == 1 {
        80
    } else {
        100
    };
    let vol_penalty: u64 = if input.volatility_score > 7000 {
        70
    } else {
        100
    };
    assert(base as int * risk_factor as int * vol_penalty as int <= base as int * 10000)
        by (nonlinear_arith)
        requires
            risk_factor <= 100,
            vol_penalty <= 100,
    ;
    let product: u128 = (base as u128) * (risk_factor as u128) * (vol_penalty as u128);
    assert(product as int / 10000 <= base as int) by (nonlinear_arith)
        requires
            product as int <= base as int * 10000,
    ;
    let recommended = (product / 10000) as u64;
    let slice_count: u8 = if input.privacy_priority == 0 {
        3
    } else if input.privacy_priority == 1 {
        5
    } else {
        7
    };
    let time_window: u32 = if input.volatility_score > 7000 {
        60
    } else {
        38
    };
    let mev_route: u8 = if input.privacy_priority >= 1 {
        1
    } else {
        0
    };
    let privacy_mode: u8 = if input.privacy_priority == 0 {
        0
    } else if input.privacy_priority == 1 {
        1
    } else {
        2
    };
    let risk_class: u8 = if input.risk_level == 0 && input.volatility_score < 5000 {
        0
    } else if input.risk_level == 2 || input.volatility_score > 8000 {
        2
    } else {
        1
    };
    PlanOutput {
        recommended_size_sol: recommended,
        slice_count,
        time_window_sec: time_window,
        mev_route,
        privacy_mode,
        risk_class,
    }
}

} // verus!
