use vstd::prelude::*;

use crate::config::ConfigError;
use crate::config::SearchConfig;
use crate::outcome::counter_le;
use crate::outcome::merge_outcomes;
use crate::outcome::merge_view;
use crate::outcome::opt_outcome_view_owned;
use crate::outcome::sat_add_u128;
use crate::outcome::sat_add_u64;
use crate::outcome::spec_sat_add_u128;
use crate::outcome::spec_sat_add_u64;
use crate::outcome::lemma_merge_counters_monotone;
use crate::outcome::OutcomeView;
use crate::outcome::SearchCounter;
use crate::outcome::SearchOutcome;
use crate::player::PlayerId;

verus! {

/// The parameters a host bundles to begin a session: whom to optimize for,
/// the position to analyze, the per-increment time budget and the number of
/// increments.
pub struct WorkerMessage<G> {
    pub maximize_player: PlayerId,
    pub game_state: G,
    pub time_ms_per_step: u32,
    pub steps: u32,
}

/// Bookkeeping of one live session: the position under analysis and the
/// agent searched for (both fixed for the session's lifetime), the number of
/// increments still owed, and the wall-clock time spent so far (reporting
/// only).
pub struct SearchSteps<G> {
    pub game_state: G,
    pub maximize_player: PlayerId,
    pub steps_remaining: u32,
    pub accumulated_time_ns: u128,
}

/// A control message from the host to the worker.
pub enum SearchAction<G> {
    /// Replace any current session with a fresh one for `game_state`,
    /// searched on behalf of `maximize_player`, with `steps` increments.
    Start { maximize_player: PlayerId, game_state: G, steps: u32 },
    /// Run one more increment of the current session, if any.
    Step,
    /// Discard the current session and any best-so-far outcome.
    Abandon,
    /// Replace the engine configuration used by subsequent steps.
    SetConfig(SearchConfig),
}

/// The message the worker sends back to the host: whether the session is
/// finished, the merged best outcome so far (if any), and the session's
/// accumulated wall-clock time in nanoseconds.
pub struct SearchReturn<M, E>(pub bool, pub Option<SearchOutcome<M, E>>, pub u128);

/// Mathematical image of a `SearchReturn`.
pub struct ReturnView<M, E> {
    pub is_final: bool,
    pub outcome: Option<OutcomeView<M, E>>,
    pub accumulated_time_ns: u128,
}

impl<M, E> View for SearchReturn<M, E> {
    type V = ReturnView<M, E>;

    open spec fn view(&self) -> ReturnView<M, E> {
        ReturnView {
            is_final: self.0,
            outcome: opt_outcome_view_owned(self.1),
            accumulated_time_ns: self.2,
        }
    }
}

/// The response sent when there is nothing to report: not final, no
/// outcome, no accumulated time.
pub open spec fn default_return_view<M, E>() -> ReturnView<M, E> {
    ReturnView { is_final: false, outcome: Option::None, accumulated_time_ns: 0 }
}

impl<M, E> Default for SearchReturn<M, E> {
    /// The empty acknowledgement.
    fn default() -> (r: Self)
        ensures
            r@ == default_return_view::<M, E>(),
    {
        SearchReturn(false, Option::None, 0)
    }
}

/// The externally observable session state: exactly one of these holds at
/// any time. `Running` always has at least one increment left; a session
/// whose budget is spent moves to `Exhausted`, which keeps the final merged
/// outcome (absent only for a zero-budget session) and the accumulated time
/// so the final acknowledgement can be re-emitted verbatim.
pub enum SessionState<G, M, E> {
    Idle,
    Running(SearchSteps<G>, Option<SearchOutcome<M, E>>),
    Exhausted(Option<SearchOutcome<M, E>>, u128),
}

/// Mathematical image of a `SessionState`.
pub enum StateView<G, M, E> {
    Idle,
    Running(SearchSteps<G>, Option<OutcomeView<M, E>>),
    Exhausted(Option<OutcomeView<M, E>>, u128),
}

impl<G, M, E> View for SessionState<G, M, E> {
    type V = StateView<G, M, E>;

    open spec fn view(&self) -> StateView<G, M, E> {
        match *self {
            SessionState::Idle => StateView::Idle,
            SessionState::Running(s, b) => StateView::Running(s, opt_outcome_view_owned(b)),
            SessionState::Exhausted(o, t) => StateView::Exhausted(opt_outcome_view_owned(o), t),
        }
    }
}

/// What the worker loop must do after handing a message to the state
/// machine.
pub enum WorkerReply<M, E> {
    /// Send this message back to the host.
    Respond(SearchReturn<M, E>),
    /// Invoke the search engine on the current session's snapshot and agent,
    /// measure the elapsed time, and hand both to `finish_step`.
    RunSearch,
    /// The new configuration was accepted; nothing is sent to the host.
    ConfigApplied,
    /// The new configuration was rejected and the old one kept.
    ConfigRejected(ConfigError),
}

/// Mathematical image of a `WorkerReply`.
pub enum ReplyView<M, E> {
    Respond(ReturnView<M, E>),
    RunSearch,
    ConfigApplied,
    ConfigRejected(ConfigError),
}

impl<M, E> View for WorkerReply<M, E> {
    type V = ReplyView<M, E>;

    open spec fn view(&self) -> ReplyView<M, E> {
        match *self {
            WorkerReply::Respond(r) => ReplyView::Respond(r@),
            WorkerReply::RunSearch => ReplyView::RunSearch,
            WorkerReply::ConfigApplied => ReplyView::ConfigApplied,
            WorkerReply::ConfigRejected(e) => ReplyView::ConfigRejected(e),
        }
    }
}

/// Mathematical image of a `SearchWorker`.
pub struct WorkerView<G, M, E> {
    pub state: StateView<G, M, E>,
    pub config: SearchConfig,
    pub engine_invocations: u64,
}

/// Well-formedness of a worker view: the configuration is valid and a
/// running session always has at least one increment left.
pub open spec fn view_wf<G, M, E>(w: WorkerView<G, M, E>) -> bool {
    &&& w.config.is_valid()
    &&& match w.state {
        StateView::Running(s, _) => s.steps_remaining > 0,
        _ => true,
    }
}

/// The view of a freshly created worker: no session, no engine work done.
pub open spec fn initial_view<G, M, E>(config: SearchConfig) -> WorkerView<G, M, E> {
    WorkerView { state: StateView::Idle, config, engine_invocations: 0 }
}

/// The transition taken on one inbound control message. It is deterministic:
/// the only nondeterministic ingredient of the protocol, the engine outcome,
/// enters later through `spec_finish`.
pub open spec fn spec_handle<G, M, E>(w: WorkerView<G, M, E>, a: SearchAction<G>) -> (
    WorkerView<G, M, E>,
    ReplyView<M, E>,
) {
    match a {
        SearchAction::Start { maximize_player, game_state, steps } => {
            let state = if steps == 0 {
                StateView::Exhausted(Option::None, 0)
            } else {
                StateView::Running(
                    SearchSteps {
                        game_state,
                        maximize_player,
                        steps_remaining: steps,
                        accumulated_time_ns: 0,
                    },
                    Option::None,
                )
            };
            (
                WorkerView { state, config: w.config, engine_invocations: w.engine_invocations },
                ReplyView::Respond(default_return_view()),
            )
        },
        SearchAction::Step => match w.state {
            StateView::Idle => (w, ReplyView::Respond(default_return_view())),
            StateView::Exhausted(o, t) => (
                w,
                ReplyView::Respond(
                    ReturnView { is_final: true, outcome: o, accumulated_time_ns: t },
                ),
            ),
            StateView::Running(_, _) => (
                WorkerView {
                    state: w.state,
                    config: w.config,
                    engine_invocations: spec_sat_add_u64(w.engine_invocations, 1),
                },
                ReplyView::RunSearch,
            ),
        },
        SearchAction::Abandon => (
            WorkerView {
                state: StateView::Idle,
                config: w.config,
                engine_invocations: w.engine_invocations,
            },
            ReplyView::Respond(default_return_view()),
        ),
        SearchAction::SetConfig(c) => if c.is_valid() {
            (
                WorkerView { state: w.state, config: c, engine_invocations: w.engine_invocations },
                ReplyView::ConfigApplied,
            )
        } else {
            (w, ReplyView::ConfigRejected(ConfigError::ZeroTimeBudget))
        },
    }
}

/// The transition taken when the worker loop hands back an engine outcome
/// `o` and the elapsed wall-clock time `dt` of the increment: the outcome is
/// merged into the best-so-far, the step budget is decremented, and a
/// progress message is produced, final exactly when the budget is now
/// spent. Without a running session nothing changes and the empty
/// acknowledgement is produced.
pub open spec fn spec_finish<G, M, E>(w: WorkerView<G, M, E>, o: OutcomeView<M, E>, dt: u128) -> (
    WorkerView<G, M, E>,
    ReturnView<M, E>,
) {
    match w.state {
        StateView::Running(s, best) => {
            let merged = merge_view(best, o);
            let acc = spec_sat_add_u128(s.accumulated_time_ns, dt);
            let finished = s.steps_remaining <= 1;
            let state = if finished {
                StateView::Exhausted(Option::Some(merged), acc)
            } else {
                StateView::Running(
                    SearchSteps {
                        game_state: s.game_state,
                        maximize_player: s.maximize_player,
                        steps_remaining: (s.steps_remaining - 1) as u32,
                        accumulated_time_ns: acc,
                    },
                    Option::Some(merged),
                )
            };
            (
                WorkerView { state, config: w.config, engine_invocations: w.engine_invocations },
                ReturnView {
                    is_final: finished,
                    outcome: Option::Some(merged),
                    accumulated_time_ns: acc,
                },
            )
        },
        _ => (w, default_return_view()),
    }
}

/// The worker-side state machine: holds at most one session and the best
/// outcome merged so far, and processes one inbound message at a time. The
/// engine itself lives outside; when a step needs engine work the machine
/// answers `RunSearch` and the worker loop calls `finish_step` with the
/// outcome.
pub struct SearchWorker<G, M, E> {
    state: SessionState<G, M, E>,
    config: SearchConfig,
    engine_invocations: u64,
}

impl<G, M, E> View for SearchWorker<G, M, E> {
    type V = WorkerView<G, M, E>;

    closed spec fn view(&self) -> WorkerView<G, M, E> {
        WorkerView {
            state: self.state@,
            config: self.config,
            engine_invocations: self.engine_invocations,
        }
    }
}

impl<G, M, E> SearchWorker<G, M, E> {
    #[verifier::type_invariant]
    spec fn wf(self) -> bool {
        view_wf(self@)
    }
}

impl<G, M: Copy, E: Copy> SearchWorker<G, M, E> {
    /// Create a worker with no session. A configuration whose per-call time
    /// budget is zero is rejected here, before any session can see it.
    pub fn new(config: SearchConfig) -> (r: Result<Self, ConfigError>)
        ensures
            config.is_valid() ==> (r matches Result::Ok(w) && w@ == initial_view::<G, M, E>(
                config,
            )),
            !config.is_valid() ==> (r matches Result::Err(e) && e == ConfigError::ZeroTimeBudget),
    {
        if config.check_valid() {
            Result::Ok(
                SearchWorker { state: SessionState::Idle, config, engine_invocations: 0 },
            )
        } else {
            Result::Err(ConfigError::ZeroTimeBudget)
        }
    }

    /// Process one inbound control message, in arrival order, and say what
    /// the worker loop must do next. The exact transition is `spec_handle`.
    pub fn handle_input(&mut self, action: SearchAction<G>) -> (r: WorkerReply<M, E>)
        ensures
            final(self)@ == spec_handle(old(self)@, action).0,
            r@ == spec_handle(old(self)@, action).1,
    {
        proof {
            use_type_invariant(&*self);
        }
        match action {
            SearchAction::Start { maximize_player, game_state, steps } => {
                if steps == 0 {
                    self.state = SessionState::Exhausted(Option::None, 0);
                } else {
                    self.state = SessionState::Running(
                        SearchSteps {
                            game_state,
                            maximize_player,
                            steps_remaining: steps,
                            accumulated_time_ns: 0,
                        },
                        Option::None,
                    );
                }
                WorkerReply::Respond(SearchReturn(false, Option::None, 0))
            },
            SearchAction::Step => match &self.state {
                SessionState::Idle => WorkerReply::Respond(SearchReturn(false, Option::None, 0)),
                SessionState::Exhausted(o, t) => {
                    let out = match o {
                        Option::Some(p) => Option::Some(p.duplicate()),
                        Option::None => Option::None,
                    };
                    WorkerReply::Respond(SearchReturn(true, out, *t))
                },
                SessionState::Running(_, _) => {
                    self.engine_invocations = sat_add_u64(self.engine_invocations, 1);
                    WorkerReply::RunSearch
                },
            },
            SearchAction::Abandon => {
                self.state = SessionState::Idle;
                WorkerReply::Respond(SearchReturn(false, Option::None, 0))
            },
            SearchAction::SetConfig(c) => {
                if c.check_valid() {
                    self.config = c;
                    WorkerReply::ConfigApplied
                } else {
                    WorkerReply::ConfigRejected(ConfigError::ZeroTimeBudget)
                }
            },
        }
    }

    /// Complete one increment: merge the engine outcome into the
    /// best-so-far, account the elapsed time, decrement the step budget and
    /// produce the progress message, final exactly when the budget is now
    /// spent. Calling this without a running session changes nothing and
    /// yields the empty acknowledgement. The exact transition is
    /// `spec_finish`.
    pub fn finish_step(&mut self, outcome: SearchOutcome<M, E>, elapsed_ns: u128) -> (r:
        SearchReturn<M, E>)
        ensures
            final(self)@ == spec_finish(old(self)@, outcome@, elapsed_ns).0,
            r@ == spec_finish(old(self)@, outcome@, elapsed_ns).1,
    {
        proof {
            use_type_invariant(&*self);
        }
        let mut taken = SessionState::Idle;
        std::mem::swap(&mut taken, &mut self.state);
        match taken {
            SessionState::Running(mut s, best) => {
                let merged = merge_outcomes(best.as_ref(), outcome);
                let acc = sat_add_u128(s.accumulated_time_ns, elapsed_ns);
                let reported = merged.duplicate();
                if s.steps_remaining <= 1 {
                    self.state = SessionState::Exhausted(Option::Some(merged), acc);
                    SearchReturn(true, Option::Some(reported), acc)
                } else {
                    s.steps_remaining = s.steps_remaining - 1;
                    s.accumulated_time_ns = acc;
                    self.state = SessionState::Running(s, Option::Some(merged));
                    SearchReturn(false, Option::Some(reported), acc)
                }
            },
            other => {
                self.state = other;
                SearchReturn(false, Option::None, 0)
            },
        }
    }

    /// How often the state machine has ordered an engine invocation.
    pub fn engine_invocations(&self) -> (r: u64)
        ensures
            r == self@.engine_invocations,
    {
        self.engine_invocations
    }

    /// The configuration subsequent steps will use.
    pub fn current_config(&self) -> (r: SearchConfig)
        ensures
            r == self@.config,
    {
        self.config
    }

    /// Whether a session is running, with budget left.
    pub fn has_active_session(&self) -> (r: bool)
        ensures
            r == (self@.state is Running),
    {
        match &self.state {
            SessionState::Running(_, _) => true,
            _ => false,
        }
    }

    /// The position the current session analyzes, if one is running.
    pub fn snapshot(&self) -> (r: Option<&G>)
        ensures
            (self@.state is Running) <==> (r is Some),
            self@.state matches StateView::Running(s, _) ==> r matches Option::Some(g) && *g
                == s.game_state,
    {
        match &self.state {
            SessionState::Running(s, _) => Option::Some(&s.game_state),
            _ => Option::None,
        }
    }

    /// The agent the current session optimizes for, if one is running.
    pub fn maximize_player(&self) -> (r: Option<PlayerId>)
        ensures
            (self@.state is Running) <==> (r is Some),
            self@.state matches StateView::Running(s, _) ==> r == Option::Some(s.maximize_player),
    {
        match &self.state {
            SessionState::Running(s, _) => Option::Some(s.maximize_player),
            _ => Option::None,
        }
    }

    /// How many increments the current session still owes, if one is
    /// running.
    pub fn steps_remaining(&self) -> (r: Option<u32>)
        ensures
            (self@.state is Running) <==> (r is Some),
            self@.state matches StateView::Running(s, _) ==> r == Option::Some(s.steps_remaining),
    {
        match &self.state {
            SessionState::Running(s, _) => Option::Some(s.steps_remaining),
            _ => Option::None,
        }
    }
}

/// The counters of the best outcome the worker currently holds, or zero
/// counters when it holds none.
pub open spec fn best_counter<G, M, E>(w: WorkerView<G, M, E>) -> SearchCounter {
    match w.state {
        StateView::Running(_, Option::Some(b)) => b.counter,
        StateView::Exhausted(Option::Some(b), _) => b.counter,
        _ => SearchCounter { states_visited: 0, time_spent_ns: 0 },
    }
}

/// Idempotent exhaustion: once a session is exhausted, a `Step` leaves the
/// worker unchanged and orders no engine invocation, and every further
/// `Step` yields a response identical to the prior final response.
pub proof fn lemma_exhausted_step_idempotent<G, M, E>(w: WorkerView<G, M, E>)
    requires
        w.state is Exhausted,
    ensures
        spec_handle(w, SearchAction::Step).0 == w,
        spec_handle(w, SearchAction::Step).0.engine_invocations == w.engine_invocations,
        spec_handle(w, SearchAction::Step).1 matches ReplyView::Respond(ret) && ret.is_final,
        spec_handle(spec_handle(w, SearchAction::Step).0, SearchAction::Step).1 == spec_handle(
            w,
            SearchAction::Step,
        ).1,
{
}

/// Idempotent exhaustion over any number of further `Step` messages: every
/// response of an exhausted worker is the final response — same final bit,
/// same outcome, same accumulated time — whatever outcomes and durations
/// the worker loop could have supplied.
pub proof fn lemma_exhausted_all_reports_identical<G, M, E>(
    w: WorkerView<G, M, E>,
    events: Seq<(OutcomeView<M, E>, u128)>,
    k: int,
)
    requires
        w.state is Exhausted,
        0 <= k < events.len(),
    ensures
        w.state matches StateView::Exhausted(o, t) ==> nth_report(w, events, k) == (ReturnView {
            is_final: true,
            outcome: o,
            accumulated_time_ns: t,
        }),
    decreases k,
{
    if k > 0 {
        lemma_exhausted_all_reports_identical(
            step_message(w, events[0].0, events[0].1).0,
            events.subrange(1, events.len() as int),
            k - 1,
        );
    }
}

/// Monotonic counters: the counters reported by a completed step dominate
/// both the counters of the best outcome held before it and the counters of
/// the new engine outcome, and the reported outcome becomes the held best,
/// so reported counters never decrease across the steps of one session.
pub proof fn lemma_step_counters_monotone<G, M, E>(
    w: WorkerView<G, M, E>,
    o: OutcomeView<M, E>,
    dt: u128,
)
    requires
        w.state is Running,
    ensures
        spec_finish(w, o, dt).1.outcome matches Option::Some(out) && {
            &&& counter_le(best_counter(w), out.counter)
            &&& counter_le(o.counter, out.counter)
            &&& best_counter(spec_finish(w, o, dt).0) == out.counter
        },
{
    match w.state {
        StateView::Running(_, Option::Some(b)) => {
            lemma_merge_counters_monotone(b, o);
        },
        _ => {},
    }
}

/// What one `Step` message does to the worker and what it reports, given
/// the engine outcome `o` and elapsed time `dt` that the worker loop would
/// supply if the machine orders an engine invocation. When no invocation is
/// ordered (idle or exhausted), `o` and `dt` are unused and the emitted
/// response is the machine's own.
pub open spec fn step_message<G, M, E>(w: WorkerView<G, M, E>, o: OutcomeView<M, E>, dt: u128) -> (
    WorkerView<G, M, E>,
    ReturnView<M, E>,
) {
    match spec_handle(w, SearchAction::Step).1 {
        ReplyView::Respond(ret) => (spec_handle(w, SearchAction::Step).0, ret),
        _ => spec_finish(spec_handle(w, SearchAction::Step).0, o, dt),
    }
}

/// A worker that holds a session with work left, or a finished session that
/// produced an outcome: the states in which every `Step` message reports an
/// outcome.
pub open spec fn active_session<G, M, E>(w: WorkerView<G, M, E>) -> bool {
    match w.state {
        StateView::Running(_, _) => true,
        StateView::Exhausted(o, _) => o is Some,
        StateView::Idle => false,
    }
}

/// The response to the `k`-th of a sequence of `Step` messages, where
/// `events[i]` is the engine outcome and elapsed time of the `i`-th step.
pub open spec fn nth_report<G, M, E>(
    w: WorkerView<G, M, E>,
    events: Seq<(OutcomeView<M, E>, u128)>,
    k: int,
) -> ReturnView<M, E>
    recommends
        0 <= k < events.len(),
    decreases k,
{
    if k <= 0 || events.len() == 0 {
        step_message(w, events[0].0, events[0].1).1
    } else {
        nth_report(
            step_message(w, events[0].0, events[0].1).0,
            events.subrange(1, events.len() as int),
            k - 1,
        )
    }
}

/// One `Step` message of an active session reports an outcome whose
/// counters dominate those of the best outcome held before it, and that
/// outcome becomes the held best; the session stays active.
pub proof fn lemma_step_message_monotone<G, M, E>(
    w: WorkerView<G, M, E>,
    o: OutcomeView<M, E>,
    dt: u128,
)
    requires
        active_session(w),
    ensures
        active_session(step_message(w, o, dt).0),
        step_message(w, o, dt).1.outcome matches Option::Some(out) && {
            &&& counter_le(best_counter(w), out.counter)
            &&& best_counter(step_message(w, o, dt).0) == out.counter
        },
{
    match w.state {
        StateView::Running(_, _) => {
            lemma_step_counters_monotone(spec_handle(w, SearchAction::Step).0, o, dt);
        },
        _ => {},
    }
}

/// Monotonic counters across a whole session: for every sequence of `Step`
/// messages fed by any engine outcomes and durations whatsoever, the
/// counters reported after step `k + 1` dominate the counters reported
/// after step `k`, componentwise.
pub proof fn lemma_session_counters_monotone<G, M, E>(
    w: WorkerView<G, M, E>,
    events: Seq<(OutcomeView<M, E>, u128)>,
    k: int,
)
    requires
        active_session(w),
        0 <= k,
        k + 1 < events.len(),
    ensures
        nth_report(w, events, k).outcome matches Option::Some(r1) && nth_report(
            w,
            events,
            k + 1,
        ).outcome matches Option::Some(r2) && counter_le(r1.counter, r2.counter),
    decreases k,
{
    let w1 = step_message(w, events[0].0, events[0].1).0;
    let rest = events.subrange(1, events.len() as int);
    lemma_step_message_monotone(w, events[0].0, events[0].1);
    if k == 0 {
        lemma_step_message_monotone(w1, events[1].0, events[1].1);
        assert(rest[0] == events[1]);
    } else {
        lemma_session_counters_monotone(w1, rest, k - 1);
    }
}

/// Abandon clears all session state: after an `Abandon`, the worker is idle
/// and a following `Step` yields the no-active-session response and does
/// not continue the abandoned session.
pub proof fn lemma_abandon_then_step_noop<G, M, E>(w: WorkerView<G, M, E>)
    ensures
        spec_handle(w, SearchAction::Abandon).0.state is Idle,
        spec_handle(spec_handle(w, SearchAction::Abandon).0, SearchAction::Step).1
            == ReplyView::Respond(default_return_view::<M, E>()),
        spec_handle(spec_handle(w, SearchAction::Abandon).0, SearchAction::Step).0 == spec_handle(
            w,
            SearchAction::Abandon,
        ).0,
{
}

/// Order sensitivity: a session started with a budget of one orders exactly
/// one engine invocation; its first completed step is final, and a further
/// `Step` orders no second invocation and merely repeats the final
/// response.
pub proof fn lemma_single_step_budget<G, M, E>(
    w: WorkerView<G, M, E>,
    p: PlayerId,
    g: G,
    o: OutcomeView<M, E>,
    dt: u128,
)
    ensures
        ({
            let w1 = spec_handle(
                w,
                SearchAction::Start { maximize_player: p, game_state: g, steps: 1 },
            ).0;
            let w2 = spec_handle(w1, SearchAction::Step).0;
            let w3 = spec_finish(w2, o, dt).0;
            let ret = spec_finish(w2, o, dt).1;
            &&& spec_handle(w1, SearchAction::Step).1 is RunSearch
            &&& w2.engine_invocations == spec_sat_add_u64(w1.engine_invocations, 1)
            &&& ret.is_final
            &&& w3.state is Exhausted
            &&& spec_handle(w3, SearchAction::Step).0 == w3
            &&& spec_handle(w3, SearchAction::Step).1 == ReplyView::Respond(ret)
        }),
{
}

} // verus!
