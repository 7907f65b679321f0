use vstd::prelude::*;

verus! {

/// Configuration of the search engine, immutable between `SetConfig`
/// messages. The scalar tuning constants are carried in thousandths so the
/// protocol stays in plain integers; the worker loop converts them to
/// whatever form its engine wants.
///
/// Invariant: the per-call time budget is positive. A configuration that
/// breaks it is rejected at construction and `SetConfig` time and never
/// reaches a running session.
#[derive(Clone, Copy, Debug)]
pub struct SearchConfig {
    /// Wall-clock budget of a single engine increment, in milliseconds.
    pub time_budget_per_step_ms: u32,
    /// Exploration constant of the tree search, in thousandths.
    pub exploration_constant_milli: u32,
    /// Memory budget of the engine's internal table, in megabytes.
    pub table_memory_mb: u32,
    /// Whether the engine may parallelize a single increment internally.
    pub parallel: bool,
    /// Number of randomized playouts per expanded node.
    pub random_playout_iterations: u32,
    /// Depth at which a randomized playout is cut off.
    pub random_playout_cutoff_depth: u32,
    /// Optional playout bias, in thousandths.
    pub random_playout_bias_milli: Option<u32>,
}

impl SearchConfig {
    /// A configuration is valid exactly when its per-call time budget is
    /// positive.
    pub open spec fn is_valid(self) -> bool {
        self.time_budget_per_step_ms > 0
    }

    /// Runtime check for `is_valid`.
    pub fn check_valid(&self) -> (r: bool)
        ensures
            r == self.is_valid(),
    {
        self.time_budget_per_step_ms > 0
    }
}

/// Why a configuration was rejected.
#[derive(Clone, Copy, PartialEq, Eq, Structural, Debug)]
pub enum ConfigError {
    /// The per-call time budget was zero.
    ZeroTimeBudget,
}

} // verus!
