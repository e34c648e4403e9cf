//! The five computation kinds and the registry of their definitions.

use vstd::prelude::*;

verus! {

/// The computations that the network evaluates, one per scoring circuit.
#[derive(Clone, Copy, Debug, PartialEq, Eq, Structural)]
pub enum ComputationKind {
    StrategyPlan,
    RiskScore,
    CurveEval,
    GmpcStrategy,
    MultiUserAnalytics,
}

/// Name under which a kind's circuit is published.
pub open spec fn kind_name(kind: ComputationKind) -> Seq<char> {
    match kind {
        ComputationKind::StrategyPlan => "confidential_strategy_plan"@,
        ComputationKind::RiskScore => "confidential_risk_score"@,
        ComputationKind::CurveEval => "confidential_curve_eval"@,
        ComputationKind::GmpcStrategy => "evalys_gmpc_strategy"@,
        ComputationKind::MultiUserAnalytics => "confidential_multi_user_analytics"@,
    }
}

pub open spec fn kind_index(kind: ComputationKind) -> int {
    match kind {
        ComputationKind::StrategyPlan => 0,
        ComputationKind::RiskScore => 1,
        ComputationKind::CurveEval => 2,
        ComputationKind::GmpcStrategy => 3,
        ComputationKind::MultiUserAnalytics => 4,
    }
}

/// Number of computation kinds.
pub const KIND_COUNT: usize = 5;

impl ComputationKind {
    /// Name under which the kind's circuit is published.
    pub fn name(&self) -> (r: &'static str)
        ensures
            r@ == kind_name(*self),
    {
        match self {
            ComputationKind::StrategyPlan => "confidential_strategy_plan",
            ComputationKind::RiskScore => "confidential_risk_score",
            ComputationKind::CurveEval => "confidential_curve_eval",
            ComputationKind::GmpcStrategy => "evalys_gmpc_strategy",
            ComputationKind::MultiUserAnalytics => "confidential_multi_user_analytics",
        }
    }

    /// Position of the kind in the registry's table.
    pub fn index(&self) -> (r: usize)
        ensures
            r as int == kind_index(*self),
            r < KIND_COUNT,
    {
        match self {
            ComputationKind::StrategyPlan => 0,
            ComputationKind::RiskScore => 1,
            ComputationKind::CurveEval => 2,
            ComputationKind::GmpcStrategy => 3,
            ComputationKind::MultiUserAnalytics => 4,
        }
    }
}

/// Definition offset derived from a circuit's name by a fixed one-way hash.
pub uninterp spec fn definition_offset_of(name: Seq<char>) -> u32;

/// Relies on `arcium_anchor::comp_def_offset`: the first four bytes, read
/// little-endian, of the SHA-256 digest of the name, so a function of the name alone.
#[verifier::external_body]
fn hashed_offset(name: &str) -> (r: u32)
    ensures
        r == definition_offset_of(name@),
{
    arcium_anchor::comp_def_offset(name)
}

/// Definition offset of a kind.
pub open spec fn kind_offset(kind: ComputationKind) -> u32 {
    definition_offset_of(kind_name(kind))
}

/// Derives the definition offset of a kind from its name.
pub fn comp_def_offset(kind: ComputationKind) -> (r: u32)
    ensures
        r == kind_offset(kind),
{
    hashed_offset(kind.name())
}

/// The kinds that have been defined, each with its offset.
pub struct Registry {
    offsets: Vec<Option<u32>>,
}

impl View for Registry {
    type V = Set<ComputationKind>;

    closed spec fn view(&self) -> Set<ComputationKind> {
        Set::new(|k: ComputationKind| self.offsets@[kind_index(k)] is Some)
    }
}

impl Registry {
    /// One slot per kind; a filled slot holds the kind's own offset.
    pub closed spec fn wf(&self) -> bool {
        &&& self.offsets@.len() == KIND_COUNT
        &&& forall|k: ComputationKind|
            #[trigger] self.offsets@[kind_index(k)] is Some ==> self.offsets@[kind_index(
                k,
            )]->Some_0 == kind_offset(k)
    }

    /// A registry in which no kind is defined.
    pub fn new() -> (r: Registry)
        ensures
            r.wf(),
            r@ == Set::<ComputationKind>::empty(),
    {
        let r = Registry { offsets: vec![None, None, None, None, None] };
        assert(r@ =~= Set::<ComputationKind>::empty());
        r
    }

    /// Defines `kind` and returns its offset; defining it again changes nothing.
    pub fn register(&mut self, kind: ComputationKind) -> (r: u32)
        requires
            old(self).wf(),
        ensures
            final(self).wf(),
            r == kind_offset(kind),
            final(self)@ == old(self)@.insert(kind),
            old(self)@.contains(kind) ==> *final(self) == *old(self),
    {
        let i = kind.index();
        match self.offsets[i] {
            Some(offset) => {
                assert(old(self)@.contains(kind));
                assert(self@ =~= old(self)@.insert(kind));
                offset
            },
            None => {
                let offset = comp_def_offset(kind);
                self.offsets.set(i, Some(offset));
                assert(self@ =~= old(self)@.insert(kind));
                offset
            },
        }
    }

    /// Whether `kind` has been defined.
    pub fn is_defined(&self, kind: ComputationKind) -> (r: bool)
        requires
            self.wf(),
        ensures
            r == self@.contains(kind),
    {
        self.offsets[kind.index()].is_some()
    }

    /// The offset of `kind`, if it has been defined.
    pub fn offset(&self, kind: ComputationKind) -> (r: Option<u32>)
        requires
            self.wf(),
        ensures
            r == (if self@.contains(kind) {
                Some(kind_offset(kind))
            } else {
                None
            }),
    {
        self.offsets[kind.index()]
    }
}

} // verus!
