//! Submission of computation requests and consumption of their outcomes.
//!
//! A request is pending from its submission until the network's outcome for it
//! is consumed; the outcome of each request is consumed at most once.

use vstd::prelude::*;
use std::collections::HashMap;
use crate::registry::{ComputationKind, Registry, kind_offset};

verus! {

broadcast use vstd::std_specs::hash::group_hash_axioms;

/// Errors surfaced by the orchestration layer.
#[derive(Clone, Copy, Debug, PartialEq, Eq, Structural)]
pub enum ErrorCode {
    /// The network could not produce a result.
    AbortedComputation,
    /// The kind was never defined.
    UndefinedComputationKind,
    /// The correlation id is already pending.
    DuplicateCorrelationId,
    /// No pending request matches the kind and correlation id of an outcome.
    UnknownCorrelation,
}

/// What the network reports for a request.
#[derive(Clone, Copy, Debug, PartialEq, Eq)]
pub enum ComputationOutcome {
    Success { ciphertext: [u8; 32], nonce: [u8; 16] },
    Aborted,
}

/// Emitted for each request that completed: the sealed result and its nonce.
#[derive(Clone, Copy, Debug, PartialEq, Eq)]
pub struct ResultEvent {
    pub kind: ComputationKind,
    pub id: u64,
    pub ciphertext: [u8; 32],
    pub nonce: [u8; 16],
}

/// A request to hand to the network.
#[derive(Clone, Debug)]
pub struct QueuedComputation {
    pub kind: ComputationKind,
    pub correlation_id: u64,
    pub definition_offset: u32,
    /// The sealed arguments, passed through unopened.
    pub sealed_args: Vec<u8>,
    /// The callback entry that must receive the outcome: the one of this kind.
    pub callback: ComputationKind,
}

/// Pending requests after a submission, and whether it was accepted.
pub open spec fn submission(
    defined: Set<ComputationKind>,
    pending: Map<u64, ComputationKind>,
    kind: ComputationKind,
    id: u64,
) -> (Map<u64, ComputationKind>, Result<(), ErrorCode>) {
    if !defined.contains(kind) {
        (pending, Err(ErrorCode::UndefinedComputationKind))
    } else if pending.contains_key(id) {
        (pending, Err(ErrorCode::DuplicateCorrelationId))
    } else {
        (pending.insert(id, kind), Ok(()))
    }
}

/// Pending requests after an outcome is delivered, and what it yields.
pub open spec fn dispatch(
    pending: Map<u64, ComputationKind>,
    kind: ComputationKind,
    id: u64,
    outcome: ComputationOutcome,
) -> (Map<u64, ComputationKind>, Result<ResultEvent, ErrorCode>) {
    if pending.contains_key(id) && pending[id] == kind {
        (
            pending.remove(id),
            match outcome {
                ComputationOutcome::Success { ciphertext, nonce } => Ok(
                    ResultEvent { kind, id, ciphertext, nonce },
                ),
                ComputationOutcome::Aborted => Err(ErrorCode::AbortedComputation),
            },
        )
    } else {
        (pending, Err(ErrorCode::UnknownCorrelation))
    }
}

/// The registry of definitions and the set of pending requests.
pub struct Orchestrator {
    registry: Registry,
    pending: HashMap<u64, ComputationKind>,
}

impl Orchestrator {
    /// The registry is well formed and every pending request is of a defined kind.
    pub closed spec fn wf(&self) -> bool {
        &&& self.registry.wf()
        &&& forall|id: u64| #[trigger]
            self.pending@.contains_key(id) ==> self.registry@.contains(self.pending@[id])
    }

    /// The kinds that have been defined.
    pub closed spec fn defined_kinds(&self) -> Set<ComputationKind> {
        self.registry@
    }

    /// Each pending correlation id, with the kind of its request.
    pub closed spec fn pending_requests(&self) -> Map<u64, ComputationKind> {
        self.pending@
    }

    /// No kind defined, no request pending.
    pub fn new() -> (r: Orchestrator)
        ensures
            r.wf(),
            r.defined_kinds() == Set::<ComputationKind>::empty(),
            r.pending_requests() == Map::<u64, ComputationKind>::empty(),
    {
        Orchestrator { registry: Registry::new(), pending: HashMap::new() }
    }

    /// Defines `kind` and returns its offset; defining it again changes nothing.
    pub fn define(&mut self, kind: ComputationKind) -> (r: u32)
        requires
            old(self).wf(),
        ensures
            registered(*old(self), *final(self), kind, r),
    {
        self.registry.register(kind)
    }

    /// Whether `kind` has been defined.
    pub fn is_defined(&self, kind: ComputationKind) -> (r: bool)
        requires
            self.wf(),
        ensures
            r == self.defined_kinds().contains(kind),
    {
        self.registry.is_defined(kind)
    }

    /// Whether a request with this correlation id is pending.
    pub fn is_pending(&self, correlation_id: u64) -> (r: bool)
        ensures
            r == self.pending_requests().contains_key(correlation_id),
    {
        self.pending.contains_key(&correlation_id)
    }

    /// Records a pending request and returns what to hand to the network.
    pub fn submit(&mut self, kind: ComputationKind, correlation_id: u64, sealed_args: Vec<u8>) -> (r:
        Result<QueuedComputation, ErrorCode>)
        requires
            old(self).wf(),
        ensures
            submitted(*old(self), *final(self), kind, correlation_id, sealed_args@, r),
    {
        match self.registry.offset(kind) {
            None => Err(ErrorCode::UndefinedComputationKind),
            Some(definition_offset) => {
                if self.pending.contains_key(&correlation_id) {
                    Err(ErrorCode::DuplicateCorrelationId)
                } else {
                    self.pending.insert(correlation_id, kind);
                    Ok(
                        QueuedComputation {
                            kind,
                            correlation_id,
                            definition_offset,
                            sealed_args,
                            callback: kind,
                        },
                    )
                }
            },
        }
    }

    /// Consumes the network's outcome for a pending request.
    pub fn on_outcome(
        &mut self,
        kind: ComputationKind,
        correlation_id: u64,
        outcome: ComputationOutcome,
    ) -> (r: Result<ResultEvent, ErrorCode>)
        requires
            old(self).wf(),
        ensures
            consumed(*old(self), *final(self), kind, correlation_id, outcome, r),
    {
        let matches = match self.pending.get(&correlation_id) {
            Some(k) => *k == kind,
            None => false,
        };
        if !matches {
            return Err(ErrorCode::UnknownCorrelation);
        }
        self.pending.remove(&correlation_id);
        match outcome {
            ComputationOutcome::Success { ciphertext, nonce } => Ok(
                ResultEvent { kind, id: correlation_id, ciphertext, nonce },
            ),
            ComputationOutcome::Aborted => Err(ErrorCode::AbortedComputation),
        }
    }
}

/// `post` has `kind` defined besides what `pre` had, and `r` is its offset.
pub open spec fn registered(pre: Orchestrator, post: Orchestrator, kind: ComputationKind, r: u32) -> bool {
    &&& post.wf()
    &&& r == kind_offset(kind)
    &&& post.defined_kinds() == pre.defined_kinds().insert(kind)
    &&& post.pending_requests() == pre.pending_requests()
}

/// `post` and `r` are what a submission of `kind` under `id` makes of `pre`.
pub open spec fn submitted(
    pre: Orchestrator,
    post: Orchestrator,
    kind: ComputationKind,
    id: u64,
    sealed_args: Seq<u8>,
    r: Result<QueuedComputation, ErrorCode>,
) -> bool {
    let (pending, result) = submission(pre.defined_kinds(), pre.pending_requests(), kind, id);
    &&& post.wf()
    &&& post.defined_kinds() == pre.defined_kinds()
    &&& post.pending_requests() == pending
    &&& match r {
        Ok(q) => {
            &&& result == Ok::<(), ErrorCode>(())
            &&& q.kind == kind
            &&& q.correlation_id == id
            &&& q.definition_offset == kind_offset(kind)
            &&& q.sealed_args@ == sealed_args
            &&& q.callback == kind
        },
        Err(e) => result == Err::<(), ErrorCode>(e),
    }
}

/// `post` and `r` are what delivering `outcome` for `kind` and `id` makes of `pre`.
pub open spec fn consumed(
    pre: Orchestrator,
    post: Orchestrator,
    kind: ComputationKind,
    id: u64,
    outcome: ComputationOutcome,
    r: Result<ResultEvent, ErrorCode>,
) -> bool {
    let (pending, result) = dispatch(pre.pending_requests(), kind, id, outcome);
    &&& post.wf()
    &&& post.defined_kinds() == pre.defined_kinds()
    &&& post.pending_requests() == pending
    &&& r == result
}

/// Every pending request is of a kind that has been defined.
pub proof fn lemma_pending_kinds_defined(o: Orchestrator, id: u64)
    requires
        o.wf(),
        o.pending_requests().contains_key(id),
    ensures
        o.defined_kinds().contains(o.pending_requests()[id]),
{
}

/// A submission under a correlation id that is already pending, for a defined kind,
/// fails with `DuplicateCorrelationId` and leaves the pending requests as they were.
pub proof fn lemma_duplicate_submission_rejected(
    defined: Set<ComputationKind>,
    pending: Map<u64, ComputationKind>,
    kind: ComputationKind,
    id: u64,
)
    requires
        defined.contains(kind),
        pending.contains_key(id),
    ensures
        submission(defined, pending, kind, id) == (
        pending,
        Err::<(), ErrorCode>(ErrorCode::DuplicateCorrelationId),
        ),
{
}

/// An outcome for a kind and correlation id that no pending request has fails with
/// `UnknownCorrelation` and leaves the pending requests as they were.
pub proof fn lemma_unknown_outcome_rejected(
    pending: Map<u64, ComputationKind>,
    kind: ComputationKind,
    id: u64,
    outcome: ComputationOutcome,
)
    requires
        !(pending.contains_key(id) && pending[id] == kind),
    ensures
        dispatch(pending, kind, id, outcome) == (
        pending,
        Err::<ResultEvent, ErrorCode>(ErrorCode::UnknownCorrelation),
        ),
{
}

/// Once an outcome for a correlation id has been consumed, whether it succeeded or
/// aborted, a second outcome for the same id fails with `UnknownCorrelation`.
pub proof fn lemma_outcome_consumed_once(
    pending: Map<u64, ComputationKind>,
    kind: ComputationKind,
    id: u64,
    first: ComputationOutcome,
    second: ComputationOutcome,
)
    ensures
        dispatch(dispatch(pending, kind, id, first).0, kind, id, second).1 == Err::<
            ResultEvent,
            ErrorCode,
        >(ErrorCode::UnknownCorrelation),
{
}

/// A request submitted for a defined kind under an id that is not pending is
/// accepted; a successful outcome for it then yields the event that carries its
/// result and leaves the pending requests as they were before the submission.
pub proof fn lemma_submitted_request_resolves(
    defined: Set<ComputationKind>,
    pending: Map<u64, ComputationKind>,
    kind: ComputationKind,
    id: u64,
    ciphertext: [u8; 32],
    nonce: [u8; 16],
)
    requires
        defined.contains(kind),
        !pending.contains_key(id),
    ensures
        ({
            let (after, submitted) = submission(defined, pending, kind, id);
            let (resolved, result) = dispatch(
                after,
                kind,
                id,
                ComputationOutcome::Success { ciphertext, nonce },
            );
            &&& submitted == Ok::<(), ErrorCode>(())
            &&& result == Ok::<ResultEvent, ErrorCode>(ResultEvent { kind, id, ciphertext, nonce })
            &&& resolved == pending
        }),
{
    let after = pending.insert(id, kind);
    assert(after.remove(id) =~= pending);
}

} // verus!
