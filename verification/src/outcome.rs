use vstd::prelude::*;

verus! {

/// Performance counters reported by the search engine for one increment and
/// accumulated across a whole session. Accumulation saturates instead of
/// wrapping, so totals never decrease.
#[derive(Clone, Copy, PartialEq, Eq, Structural, Debug)]
pub struct SearchCounter {
    /// Number of game states the engine visited.
    pub states_visited: u64,
    /// Time the engine spent inside its own search loop, in nanoseconds.
    pub time_spent_ns: u64,
}

/// Addition on `u64` that stops at `u64::MAX` instead of wrapping.
pub open spec fn spec_sat_add_u64(a: u64, b: u64) -> u64 {
    if a + b <= u64::MAX {
        (a + b) as u64
    } else {
        u64::MAX
    }
}

/// Addition on `u128` that stops at `u128::MAX` instead of wrapping.
pub open spec fn spec_sat_add_u128(a: u128, b: u128) -> u128 {
    if a + b <= u128::MAX {
        (a + b) as u128
    } else {
        u128::MAX
    }
}

pub(crate) fn sat_add_u64(a: u64, b: u64) -> (r: u64)
    ensures
        r == spec_sat_add_u64(a, b),
{
    if a <= u64::MAX - b {
        a + b
    } else {
        u64::MAX
    }
}

pub(crate) fn sat_add_u128(a: u128, b: u128) -> (r: u128)
    ensures
        r == spec_sat_add_u128(a, b),
{
    if a <= u128::MAX - b {
        a + b
    } else {
        u128::MAX
    }
}

/// Componentwise saturating sum of two counter records.
pub open spec fn spec_counter_add(a: SearchCounter, b: SearchCounter) -> SearchCounter {
    SearchCounter {
        states_visited: spec_sat_add_u64(a.states_visited, b.states_visited),
        time_spent_ns: spec_sat_add_u64(a.time_spent_ns, b.time_spent_ns),
    }
}

/// Componentwise order on counter records.
pub open spec fn counter_le(a: SearchCounter, b: SearchCounter) -> bool {
    a.states_visited <= b.states_visited && a.time_spent_ns <= b.time_spent_ns
}

impl SearchCounter {
    /// Componentwise saturating sum, matching `spec_counter_add`.
    pub fn saturating_add(self, other: SearchCounter) -> (r: SearchCounter)
        ensures
            r == spec_counter_add(self, other),
    {
        SearchCounter {
            states_visited: sat_add_u64(self.states_visited, other.states_visited),
            time_spent_ns: sat_add_u64(self.time_spent_ns, other.time_spent_ns),
        }
    }
}

/// One search engine outcome: the best move sequence known so far (the
/// principal variation), a scalar evaluation of it, and performance
/// counters. `M` is the move type and `E` the evaluation type; the protocol
/// never inspects either, it only carries and compares plans by length.
pub struct SearchOutcome<M, E> {
    /// Principal variation: the move sequence currently considered best.
    pub pv: Vec<M>,
    /// Scalar evaluation of the principal variation.
    pub eval: E,
    /// Performance counters for the work this outcome summarizes.
    pub counter: SearchCounter,
}

/// Mathematical image of a `SearchOutcome`.
pub struct OutcomeView<M, E> {
    pub pv: Seq<M>,
    pub eval: E,
    pub counter: SearchCounter,
}

impl<M, E> View for SearchOutcome<M, E> {
    type V = OutcomeView<M, E>;

    open spec fn view(&self) -> OutcomeView<M, E> {
        OutcomeView { pv: self.pv@, eval: self.eval, counter: self.counter }
    }
}

/// View of an optional borrowed outcome.
pub open spec fn opt_outcome_view<M, E>(o: Option<&SearchOutcome<M, E>>) -> Option<
    OutcomeView<M, E>,
> {
    match o {
        Option::Some(p) => Option::Some(p@),
        Option::None => Option::None,
    }
}

/// View of an optional owned outcome.
pub open spec fn opt_outcome_view_owned<M, E>(o: Option<SearchOutcome<M, E>>) -> Option<
    OutcomeView<M, E>,
> {
    match o {
        Option::Some(p) => Option::Some(p@),
        Option::None => Option::None,
    }
}

/// The merge rule applied on every step: counters are accumulated across the
/// session; the previous plan and its evaluation are kept when the previous
/// plan is at least as long as the new one, and the new plan and evaluation
/// are adopted otherwise. An absent previous best is replaced by the new
/// outcome unchanged.
pub open spec fn merge_view<M, E>(
    prev: Option<OutcomeView<M, E>>,
    new: OutcomeView<M, E>,
) -> OutcomeView<M, E> {
    match prev {
        Option::None => new,
        Option::Some(p) => {
            let counter = spec_counter_add(new.counter, p.counter);
            if p.pv.len() >= new.pv.len() {
                OutcomeView { pv: p.pv, eval: p.eval, counter }
            } else {
                OutcomeView { pv: new.pv, eval: new.eval, counter }
            }
        },
    }
}

impl<M: Copy, E: Copy> SearchOutcome<M, E> {
    /// An owned copy with the same view, so the worker can both keep the
    /// merged best-so-far and send it across the boundary.
    pub fn duplicate(&self) -> (r: Self)
        ensures
            r@ == self@,
    {
        let mut pv: Vec<M> = Vec::new();
        let mut i: usize = 0;
        while i < self.pv.len()
            invariant
                i <= self.pv.len(),
                pv@ == self.pv@.subrange(0, i as int),
            decreases self.pv.len() - i,
        {
            pv.push(self.pv[i]);
            i = i + 1;
            proof {
                assert(pv@ =~= self.pv@.subrange(0, i as int));
            }
        }
        proof {
            assert(pv@ =~= self.pv@);
        }
        SearchOutcome { pv, eval: self.eval, counter: self.counter }
    }
}

/// Executable merge, matching `merge_view` exactly.
pub fn merge_outcomes<M: Copy, E: Copy>(
    prev: Option<&SearchOutcome<M, E>>,
    new: SearchOutcome<M, E>,
) -> (r: SearchOutcome<M, E>)
    ensures
        r@ == merge_view(opt_outcome_view(prev), new@),
{
    match prev {
        Option::None => new,
        Option::Some(p) => {
            let counter = new.counter.saturating_add(p.counter);
            if p.pv.len() >= new.pv.len() {
                let mut kept = p.duplicate();
                kept.counter = counter;
                kept
            } else {
                SearchOutcome { pv: new.pv, eval: new.eval, counter }
            }
        },
    }
}

/// Merging never decreases a performance counter: the merged outcome's
/// counters dominate both the previous best's counters and the new
/// outcome's counters, componentwise.
pub proof fn lemma_merge_counters_monotone<M, E>(prev: OutcomeView<M, E>, new: OutcomeView<M, E>)
    ensures
        counter_le(prev.counter, merge_view(Option::Some(prev), new).counter),
        counter_le(new.counter, merge_view(Option::Some(prev), new).counter),
{
}

/// The merge tie-break prefers the longer principal variation: a previous
/// plan that is at least as long as the new one is retained together with
/// its evaluation, even when the new outcome evaluates better; a strictly
/// longer new plan replaces both. Counters are accumulated in either case,
/// and an absent previous best is replaced by the new outcome unchanged.
pub proof fn lemma_merge_tie_break<M, E>(prev: OutcomeView<M, E>, new: OutcomeView<M, E>)
    ensures
        prev.pv.len() >= new.pv.len() ==> merge_view(Option::Some(prev), new).pv == prev.pv
            && merge_view(Option::Some(prev), new).eval == prev.eval,
        prev.pv.len() < new.pv.len() ==> merge_view(Option::Some(prev), new).pv == new.pv
            && merge_view(Option::Some(prev), new).eval == new.eval,
        merge_view(Option::Some(prev), new).counter == spec_counter_add(new.counter, prev.counter),
        merge_view(Option::None, new) == new,
{
}

} // verus!
