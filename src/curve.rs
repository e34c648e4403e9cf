//! Execution recommendation from a bonding curve and a user's sizing constraints.

use vstd::prelude::*;

verus! {

/// A user's sizing preferences, opened only inside the computation boundary.
#[derive(Clone, Copy, Debug, PartialEq, Eq, Structural)]
pub struct SizingPreferences {
    pub target_size: u64,
    pub min_size: u64,
    pub max_size: u64,
    /// Share of capital to allocate, in percent.
    pub capital_allocation_pct: u8,
}

/// A user's execution constraints, opened only inside the computation boundary.
#[derive(Clone, Copy, Debug, PartialEq, Eq, Structural)]
pub struct UserConstraints {
    /// Largest slippage accepted, in basis points.
    pub max_slippage_bps: u16,
    /// Time allowed for the execution, in seconds.
    pub time_constraint_sec: u32,
    pub priority_level: u8,
}

/// Public metrics of the curve.
#[derive(Clone, Copy, Debug, PartialEq, Eq, Structural)]
pub struct CurveMetrics {
    pub current_price: u64,
    /// Price change over the last day; may be negative.
    pub price_change_24h: i32,
    pub liquidity_depth: u64,
    pub buy_pressure: u16,
    pub sell_pressure: u16,
}

/// Recommendation handed back to the owner of the sizing preferences.
#[derive(Clone, Copy, Debug, PartialEq, Eq, Structural)]
pub struct ExecutionRecommendation {
    pub recommended_size: u64,
    pub entry_price_target: u64,
    pub execution_urgency: u8,
    /// Timing window, in seconds.
    pub optimal_timing: u32,
    pub confidence_score: u8,
}

/// Size that the liquidity allows, before the user's bounds are applied.
pub open spec fn liquidity_size(sizing: SizingPreferences, curve: CurveMetrics) -> int {
    if curve.liquidity_depth > sizing.max_size * 2 {
        sizing.target_size as int
    } else if curve.liquidity_depth > sizing.min_size {
        curve.liquidity_depth * 3 / 4
    } else {
        sizing.min_size as int
    }
}

/// Caps `x` at `hi`, then raises it to `lo`: where `lo > hi` the result is `lo`.
pub open spec fn clamp_size(x: int, lo: int, hi: int) -> int {
    let capped = if x < hi {
        x
    } else {
        hi
    };
    if capped > lo {
        capped
    } else {
        lo
    }
}

pub open spec fn recommended_size(sizing: SizingPreferences, curve: CurveMetrics) -> int {
    clamp_size(liquidity_size(sizing, curve), sizing.min_size as int, sizing.max_size as int)
}

/// Entry price: one percent above the current price on strong upward momentum, one
/// percent below on strong downward momentum; the premium saturates at `u64::MAX`.
pub open spec fn entry_price(curve: CurveMetrics) -> int {
    if curve.price_change_24h > 1000 {
        let p = curve.current_price * 101 / 100;
        if p > u64::MAX {
            u64::MAX as int
        } else {
            p
        }
    } else if curve.price_change_24h < -1000 {
        curve.current_price * 99 / 100
    } else {
        curve.current_price as int
    }
}

pub open spec fn pressure_urgency(curve: CurveMetrics) -> int {
    if curve.buy_pressure > curve.sell_pressure * 2 {
        200
    } else if curve.sell_pressure > curve.buy_pressure * 2 {
        50
    } else {
        100
    }
}

pub open spec fn urgency(constraints: UserConstraints, curve: CurveMetrics) -> int {
    (pressure_urgency(curve) + constraints.priority_level) / 2
}

pub open spec fn timing(constraints: UserConstraints, urgency: int) -> int {
    let t = constraints.time_constraint_sec as int;
    if urgency > 200 {
        if t < 60 {
            t
        } else {
            60
        }
    } else if urgency > 150 {
        if t < 300 {
            t
        } else {
            300
        }
    } else {
        t
    }
}

pub open spec fn liquidity_confidence(liquidity_depth: u64, size: int) -> int {
    if liquidity_depth > size * 3 {
        200
    } else if liquidity_depth > size {
        150
    } else {
        100
    }
}

pub open spec fn stability_confidence(price_change_24h: i32) -> int {
    let c = price_change_24h as int;
    if -500 < c < 500 {
        200
    } else if -2000 < c < 2000 {
        150
    } else {
        100
    }
}

/// The recommendation that the circuit computes.
pub open spec fn curve_eval(
    sizing: SizingPreferences,
    constraints: UserConstraints,
    curve: CurveMetrics,
) -> ExecutionRecommendation {
    let size = recommended_size(sizing, curve);
    let u = urgency(constraints, curve);
    ExecutionRecommendation {
        recommended_size: size as u64,
        entry_price_target: entry_price(curve) as u64,
        execution_urgency: u as u8,
        optimal_timing: timing(constraints, u) as u32,
        confidence_score: ((liquidity_confidence(curve.liquidity_depth, size)
            + stability_confidence(curve.price_change_24h)) / 2) as u8,
    }
}

/// Recommends size, entry price, urgency, timing and confidence for one execution.
pub fn confidential_curve_eval(
    sizing: SizingPreferences,
    constraints: UserConstraints,
    curve: CurveMetrics,
) -> (r: ExecutionRecommendation)
    ensures
        r == curve_eval(sizing, constraints, curve),
        r.recommended_size as int == recommended_size(sizing, curve),
        sizing.min_size <= sizing.max_size ==> sizing.min_size <= r.recommended_size
            <= sizing.max_size,
{
    let liquidity = curve.liquidity_depth;
    let size: u64 = if (liquidity as u128) > (sizing.max_size as u128) * 2 {
        sizing.target_size
    } else if liquidity > sizing.min_size {
        ((liquidity as u128) * 3 / 4) as u64
    } else {
        sizing.min_size
    };
    let capped = if size < sizing.max_size {
        size
    } else {
        sizing.max_size
    };
    let recommended_size = if capped > sizing.min_size {
        capped
    } else {
        sizing.min_size
    };

    let price = curve.current_price as u128;
    let entry_price_target: u64 = if curve.price_change_24h > 1000 {
        let p = price * 101 / 100;
        if p > u64::MAX as u128 {
            u64::MAX
        } else {
            p as u64
        }
    } else if curve.price_change_24h < -1000 {
        (price * 99 / 100) as u64
    } else {
        curve.current_price
    };

    let buy = curve.buy_pressure as u32;
    let sell = curve.sell_pressure as u32;
    let pressure_urgency: u16 = if buy > sell * 2 {
        200
    } else if sell > buy * 2 {
        50
    } else {
        100
    };
    let execution_urgency = ((pressure_urgency + constraints.priority_level as u16) / 2) as u8;

    let optimal_timing = if execution_urgency > 200 {
        if constraints.time_constraint_sec < 60 {
            constraints.time_constraint_sec
        } else {
            60
        }
    } else if execution_urgency > 150 {
        if constraints.time_constraint_sec < 300 {
            constraints.time_constraint_sec
        } else {
            300
        }
    } else {
        constraints.time_constraint_sec
    };

    let liquidity_confidence: u16 = if (liquidity as u128) > (recommended_size as u128) * 3 {
        200
    } else if liquidity > recommended_size {
        150
    } else {
        100
    };
    let change = curve.price_change_24h as i64;
    let stability_confidence: u16 = if -500 < change && change < 500 {
        200
    } else if -2000 < change && change < 2000 {
        150
    } else {
        100
    };
    let confidence_score = ((liquidity_confidence + stability_confidence) / 2) as u8;

    ExecutionRecommendation {
        recommended_size,
        entry_price_target,
        execution_urgency,
        optimal_timing,
        confidence_score,
    }
}

} // verus!
