//! Accessibility query errors, named from the status codes the accessibility
//! API returns, and the budget that bounds one walk of an accessibility tree.
use vstd::prelude::*;

verus! {

/// Why an accessibility query failed.
#[derive(Clone, Copy, Debug, PartialEq, Eq, Structural)]
pub enum AxQueryError {
    CannotComplete,
    InvalidElement,
    Unsupported,
    TimedOut,
    Other(i32),
}

impl AxQueryError {
    /// The error an accessibility status code stands for; codes without a
    /// name are kept as they are.
    pub fn from_code(code: i32) -> (r: Self)
        ensures
            r == (if code == -25204 {
                AxQueryError::CannotComplete
            } else if code == -25202 {
                AxQueryError::InvalidElement
            } else if code == -25205 {
                AxQueryError::Unsupported
            } else {
                AxQueryError::Other(code)
            }),
    {
        if code == -25204 {
            AxQueryError::CannotComplete
        } else if code == -25202 {
            AxQueryError::InvalidElement
        } else if code == -25205 {
            AxQueryError::Unsupported
        } else {
            AxQueryError::Other(code)
        }
    }
}


/// The bounds of one walk of an accessibility tree: how many nodes, how
/// deep, how long in all, and how long each element may take to answer.
#[derive(Clone, Copy, Debug, PartialEq, Eq, Structural)]
pub struct AxTraversalLimits {
    pub max_nodes: usize,
    pub max_depth: usize,
    pub max_elapsed_ms: u64,
    pub per_element_timeout_ms: u32,
}

impl AxTraversalLimits {
    /// The limits of a diagnostic walk.
    pub fn diagnostic() -> (r: Self)
        ensures
            r == (AxTraversalLimits {
                max_nodes: 600,
                max_depth: 14,
                max_elapsed_ms: 220,
                per_element_timeout_ms: 20,
            }),
    {
        AxTraversalLimits { max_nodes: 600, max_depth: 14, max_elapsed_ms: 220, per_element_timeout_ms: 20 }
    }
}

/// What a walk has done so far.
#[derive(Clone, Copy, Debug, PartialEq, Eq, Structural)]
pub struct AxTraversalStats {
    pub visited_nodes: usize,
    pub deepest_level: usize,
    pub stopped_by_budget: bool,
}

#[verifier::external_type_specification]
#[verifier::external_body]
pub struct ExInstant(std::time::Instant);

/// Reads the clock with `Instant::now`; nothing is stated of the reading.
#[verifier::external_body]
fn instant_now() -> std::time::Instant {
    std::time::Instant::now()
}

/// Measures the time since `started` with `Instant::elapsed`; nothing is
/// stated of the reading.
#[verifier::external_body]
fn elapsed_since(started: &std::time::Instant) -> core::time::Duration {
    started.elapsed()
}

/// Reads a duration in whole milliseconds with `Duration::as_millis`;
/// nothing is stated of the reading, which comes from the clock.
#[verifier::external_body]
fn duration_millis(d: &core::time::Duration) -> u128 {
    d.as_millis()
}

/// Whether `elapsed_ms` milliseconds are still inside the time limit.
pub open spec fn elapsed_within(elapsed_ms: u128, limits: AxTraversalLimits) -> bool {
    elapsed_ms < limits.max_elapsed_ms
}

/// The outcome of asking to visit a node at `depth` when `time_left` says
/// whether the walk is still inside its time budget: a node past the node
/// or depth limit, or out of time, is refused and marks the walk stopped;
/// a visit counts the node and the deepest level reached.
pub open spec fn visit_outcome(
    stats: AxTraversalStats,
    limits: AxTraversalLimits,
    depth: usize,
    time_left: bool,
) -> (bool, AxTraversalStats) {
    if stats.visited_nodes >= limits.max_nodes || depth > limits.max_depth || !time_left {
        (false, AxTraversalStats { stopped_by_budget: true, ..stats })
    } else {
        (
            true,
            AxTraversalStats {
                visited_nodes: (stats.visited_nodes + 1) as usize,
                deepest_level: if depth > stats.deepest_level {
                    depth
                } else {
                    stats.deepest_level
                },
                stopped_by_budget: stats.stopped_by_budget,
            },
        )
    }
}

/// The budget of one walk: its limits, when it started and what it has
/// done. It never counts more nodes than its limit nor a level deeper than
/// its limit.
pub struct AxTraversalBudget {
    limits: AxTraversalLimits,
    started: std::time::Instant,
    stats: AxTraversalStats,
}

impl AxTraversalBudget {
    #[verifier::type_invariant]
    spec fn within_limits(self) -> bool {
        &&& self.stats.visited_nodes <= self.limits.max_nodes
        &&& self.stats.deepest_level <= self.limits.max_depth
    }

    /// The limits of this walk.
    pub closed spec fn limits_spec(self) -> AxTraversalLimits {
        self.limits
    }

    /// What this walk has done so far.
    pub closed spec fn stats_spec(self) -> AxTraversalStats {
        self.stats
    }

    /// A walk that starts now and has done nothing yet.
    pub fn new(limits: AxTraversalLimits) -> (r: Self)
        ensures
            r.limits_spec() == limits,
            r.stats_spec() == (AxTraversalStats {
                visited_nodes: 0,
                deepest_level: 0,
                stopped_by_budget: false,
            }),
    {
        Self::started_at(limits, instant_now())
    }

    /// A walk that started at `started` and has done nothing yet.
    pub fn started_at(limits: AxTraversalLimits, started: std::time::Instant) -> (r: Self)
        ensures
            r.limits_spec() == limits,
            r.stats_spec() == (AxTraversalStats {
                visited_nodes: 0,
                deepest_level: 0,
                stopped_by_budget: false,
            }),
    {
        AxTraversalBudget {
            limits,
            started,
            stats: AxTraversalStats { visited_nodes: 0, deepest_level: 0, stopped_by_budget: false },
        }
    }

    /// What this walk has done so far; never more nodes than the node limit
    /// nor a level deeper than the depth limit.
    pub fn stats(&self) -> (r: AxTraversalStats)
        ensures
            r == self.stats_spec(),
            r.visited_nodes <= self.limits_spec().max_nodes,
            r.deepest_level <= self.limits_spec().max_depth,
    {
        proof {
            use_type_invariant(self);
        }
        self.stats
    }

    /// Asks to visit a node at `depth` when `elapsed_ms` have passed since
    /// the walk started.
    pub fn visit_after(&mut self, depth: usize, elapsed_ms: u128) -> (r: bool)
        ensures
            final(self).limits_spec() == old(self).limits_spec(),
            (r, final(self).stats_spec()) == visit_outcome(
                old(self).stats_spec(),
                old(self).limits_spec(),
                depth,
                elapsed_ms < old(self).limits_spec().max_elapsed_ms,
            ),
    {
        proof {
            use_type_invariant(&*self);
        }
        if self.stats.visited_nodes >= self.limits.max_nodes || depth > self.limits.max_depth
            || elapsed_ms >= self.limits.max_elapsed_ms as u128 {
            self.stats = AxTraversalStats { stopped_by_budget: true, ..self.stats };
            return false;
        }
        let deepest = if depth > self.stats.deepest_level {
            depth
        } else {
            self.stats.deepest_level
        };
        self.stats = AxTraversalStats {
            visited_nodes: self.stats.visited_nodes + 1,
            deepest_level: deepest,
            stopped_by_budget: self.stats.stopped_by_budget,
        };
        true
    }

    /// Asks to visit a node at `depth` now. Whether time is left comes from
    /// the clock: the outcome is that of some answer to it, and a node past
    /// the node or depth limit is always refused.
    pub fn try_visit(&mut self, depth: usize) -> (r: bool)
        ensures
            final(self).limits_spec() == old(self).limits_spec(),
            exists|time_left: bool|
                (r, final(self).stats_spec()) == #[trigger] visit_outcome(
                    old(self).stats_spec(),
                    old(self).limits_spec(),
                    depth,
                    time_left,
                ),
    {
        let elapsed = elapsed_since(&self.started);
        let ms = duration_millis(&elapsed);
        let r = self.visit_after(depth, ms);
        assert((r, self.stats_spec()) == visit_outcome(
            old(self).stats_spec(),
            old(self).limits_spec(),
            depth,
            ms < old(self).limits_spec().max_elapsed_ms,
        ));
        r
    }

    /// Whether time is left when `elapsed_ms` have passed; a walk out of
    /// time is marked stopped.
    pub fn time_remaining_after(&mut self, elapsed_ms: u128) -> (r: bool)
        ensures
            final(self).limits_spec() == old(self).limits_spec(),
            r == (elapsed_ms < old(self).limits_spec().max_elapsed_ms),
            final(self).stats_spec() == (if r {
                old(self).stats_spec()
            } else {
                AxTraversalStats { stopped_by_budget: true, ..old(self).stats_spec() }
            }),
    {
        if elapsed_ms < self.limits.max_elapsed_ms as u128 {
            return true;
        }
        proof {
            use_type_invariant(&*self);
        }
        self.stats = AxTraversalStats { stopped_by_budget: true, ..self.stats };
        false
    }

    /// Whether time is left now, by the clock: the answer is whether some
    /// reading of the milliseconds elapsed since the walk started is below
    /// the time limit, so a walk with no time at all never has time left. A
    /// walk out of time is marked stopped, and nothing else changes.
    pub fn has_time_remaining(&mut self) -> (r: bool)
        ensures
            final(self).limits_spec() == old(self).limits_spec(),
            exists|elapsed_ms: u128| #[trigger] elapsed_within(elapsed_ms, old(self).limits_spec()) == r,
            final(self).stats_spec() == (if r {
                old(self).stats_spec()
            } else {
                AxTraversalStats { stopped_by_budget: true, ..old(self).stats_spec() }
            }),
    {
        let elapsed = elapsed_since(&self.started);
        let ms = duration_millis(&elapsed);
        let r = self.time_remaining_after(ms);
        assert(elapsed_within(ms, old(self).limits_spec()) == r);
        r
    }
}


} // verus!
