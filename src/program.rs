//! Entry points of each computation kind: definition, request and callback.

use vstd::prelude::*;
use crate::orchestration::{
    ComputationOutcome, ErrorCode, Orchestrator, QueuedComputation, ResultEvent, consumed,
    registered, submitted,
};
use crate::registry::ComputationKind;

verus! {

/// Defines the strategy plan computation; returns its offset.
pub fn init_strategy_comp_def(orchestrator: &mut Orchestrator) -> (r: u32)
    requires
        old(orchestrator).wf(),
    ensures
        registered(*old(orchestrator), *final(orchestrator), ComputationKind::StrategyPlan, r),
{
    orchestrator.define(ComputationKind::StrategyPlan)
}

/// Submits a strategy plan request whose correlation id is `computation_offset`.
pub fn request_strategy_plan(
    orchestrator: &mut Orchestrator,
    computation_offset: u64,
    sealed_args: Vec<u8>,
) -> (r: Result<QueuedComputation, ErrorCode>)
    requires
        old(orchestrator).wf(),
    ensures
        submitted(
            *old(orchestrator),
            *final(orchestrator),
            ComputationKind::StrategyPlan,
            computation_offset,
            sealed_args@,
            r,
        ),
{
    orchestrator.submit(ComputationKind::StrategyPlan, computation_offset, sealed_args)
}

/// Consumes the outcome of the strategy plan request whose correlation id is
/// `computation_offset`.
pub fn strategy_plan_callback(
    orchestrator: &mut Orchestrator,
    computation_offset: u64,
    output: ComputationOutcome,
) -> (r: Result<ResultEvent, ErrorCode>)
    requires
        old(orchestrator).wf(),
    ensures
        consumed(
            *old(orchestrator),
            *final(orchestrator),
            ComputationKind::StrategyPlan,
            computation_offset,
            output,
            r,
        ),
{
    orchestrator.on_outcome(ComputationKind::StrategyPlan, computation_offset, output)
}

/// Defines the risk score computation; returns its offset.
pub fn init_risk_comp_def(orchestrator: &mut Orchestrator) -> (r: u32)
    requires
        old(orchestrator).wf(),
    ensures
        registered(*old(orchestrator), *final(orchestrator), ComputationKind::RiskScore, r),
{
    orchestrator.define(ComputationKind::RiskScore)
}

/// Submits a risk score request whose correlation id is `computation_offset`.
pub fn request_risk_score(
    orchestrator: &mut Orchestrator,
    computation_offset: u64,
    sealed_args: Vec<u8>,
) -> (r: Result<QueuedComputation, ErrorCode>)
    requires
        old(orchestrator).wf(),
    ensures
        submitted(
            *old(orchestrator),
            *final(orchestrator),
            ComputationKind::RiskScore,
            computation_offset,
            sealed_args@,
            r,
        ),
{
    orchestrator.submit(ComputationKind::RiskScore, computation_offset, sealed_args)
}

/// Consumes the outcome of the risk score request whose correlation id is
/// `computation_offset`.
pub fn risk_score_callback(
    orchestrator: &mut Orchestrator,
    computation_offset: u64,
    output: ComputationOutcome,
) -> (r: Result<ResultEvent, ErrorCode>)
    requires
        old(orchestrator).wf(),
    ensures
        consumed(
            *old(orchestrator),
            *final(orchestrator),
            ComputationKind::RiskScore,
            computation_offset,
            output,
            r,
        ),
{
    orchestrator.on_outcome(ComputationKind::RiskScore, computation_offset, output)
}

/// Defines the curve evaluation computation; returns its offset.
pub fn init_curve_comp_def(orchestrator: &mut Orchestrator) -> (r: u32)
    requires
        old(orchestrator).wf(),
    ensures
        registered(*old(orchestrator), *final(orchestrator), ComputationKind::CurveEval, r),
{
    orchestrator.define(ComputationKind::CurveEval)
}

/// Submits a curve evaluation request whose correlation id is `computation_offset`.
pub fn request_curve_eval(
    orchestrator: &mut Orchestrator,
    computation_offset: u64,
    sealed_args: Vec<u8>,
) -> (r: Result<QueuedComputation, ErrorCode>)
    requires
        old(orchestrator).wf(),
    ensures
        submitted(
            *old(orchestrator),
            *final(orchestrator),
            ComputationKind::CurveEval,
            computation_offset,
            sealed_args@,
            r,
        ),
{
    orchestrator.submit(ComputationKind::CurveEval, computation_offset, sealed_args)
}

/// Consumes the outcome of the curve evaluation request whose correlation id is
/// `computation_offset`.
pub fn curve_eval_callback(
    orchestrator: &mut Orchestrator,
    computation_offset: u64,
    output: ComputationOutcome,
) -> (r: Result<ResultEvent, ErrorCode>)
    requires
        old(orchestrator).wf(),
    ensures
        consumed(
            *old(orchestrator),
            *final(orchestrator),
            ComputationKind::CurveEval,
            computation_offset,
            output,
            r,
        ),
{
    orchestrator.on_outcome(ComputationKind::CurveEval, computation_offset, output)
}

/// Defines the gMPC strategy computation; returns its offset.
pub fn init_gmpc_comp_def(orchestrator: &mut Orchestrator) -> (r: u32)
    requires
        old(orchestrator).wf(),
    ensures
        registered(*old(orchestrator), *final(orchestrator), ComputationKind::GmpcStrategy, r),
{
    orchestrator.define(ComputationKind::GmpcStrategy)
}

/// Submits a gMPC strategy request whose correlation id is `computation_offset`.
pub fn request_gmpc_strategy(
    orchestrator: &mut Orchestrator,
    computation_offset: u64,
    sealed_args: Vec<u8>,
) -> (r: Result<QueuedComputation, ErrorCode>)
    requires
        old(orchestrator).wf(),
    ensures
        submitted(
            *old(orchestrator),
            *final(orchestrator),
            ComputationKind::GmpcStrategy,
            computation_offset,
            sealed_args@,
            r,
        ),
{
    orchestrator.submit(ComputationKind::GmpcStrategy, computation_offset, sealed_args)
}

/// Consumes the outcome of the gMPC strategy request whose correlation id is
/// `computation_offset`.
pub fn gmpc_strategy_callback(
    orchestrator: &mut Orchestrator,
    computation_offset: u64,
    output: ComputationOutcome,
) -> (r: Result<ResultEvent, ErrorCode>)
    requires
        old(orchestrator).wf(),
    ensures
        consumed(
            *old(orchestrator),
            *final(orchestrator),
            ComputationKind::GmpcStrategy,
            computation_offset,
            output,
            r,
        ),
{
    orchestrator.on_outcome(ComputationKind::GmpcStrategy, computation_offset, output)
}

/// Defines the multi-user analytics computation; returns its offset.
pub fn init_multi_user_comp_def(orchestrator: &mut Orchestrator) -> (r: u32)
    requires
        old(orchestrator).wf(),
    ensures
        registered(*old(orchestrator), *final(orchestrator), ComputationKind::MultiUserAnalytics, r),
{
    orchestrator.define(ComputationKind::MultiUserAnalytics)
}

/// Submits a multi-user analytics request whose correlation id is `computation_offset`.
pub fn request_multi_user_analytics(
    orchestrator: &mut Orchestrator,
    computation_offset: u64,
    sealed_args: Vec<u8>,
) -> (r: Result<QueuedComputation, ErrorCode>)
    requires
        old(orchestrator).wf(),
    ensures
        submitted(
            *old(orchestrator),
            *final(orchestrator),
            ComputationKind::MultiUserAnalytics,
            computation_offset,
            sealed_args@,
            r,
        ),
{
    orchestrator.submit(ComputationKind::MultiUserAnalytics, computation_offset, sealed_args)
}

/// Consumes the outcome of the multi-user analytics request whose correlation id is
/// `computation_offset`.
pub fn multi_user_analytics_callback(
    orchestrator: &mut Orchestrator,
    computation_offset: u64,
    output: ComputationOutcome,
) -> (r: Result<ResultEvent, ErrorCode>)
    requires
        old(orchestrator).wf(),
    ensures
        consumed(
            *old(orchestrator),
            *final(orchestrator),
            ComputationKind::MultiUserAnalytics,
            computation_offset,
            output,
            r,
        ),
{
    orchestrator.on_outcome(ComputationKind::MultiUserAnalytics, computation_offset, output)
}

} // verus!
