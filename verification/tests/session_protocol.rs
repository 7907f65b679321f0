use gitcg_sim_web::config::ConfigError;
use gitcg_sim_web::config::SearchConfig;
use gitcg_sim_web::outcome::SearchCounter;
use gitcg_sim_web::outcome::SearchOutcome;
use gitcg_sim_web::player::PlayerId;
use gitcg_sim_web::search::SearchAction;
use gitcg_sim_web::search::SearchReturn;
use gitcg_sim_web::search::SearchWorker;
use gitcg_sim_web::search::WorkerReply;

fn valid_config() -> SearchConfig {
    SearchConfig {
        time_budget_per_step_ms: 500,
        exploration_constant_milli: 2000,
        table_memory_mb: 32,
        parallel: false,
        random_playout_iterations: 10,
        random_playout_cutoff_depth: 20,
        random_playout_bias_milli: Some(10_000),
    }
}

fn worker() -> SearchWorker<u64, u32, f32> {
    SearchWorker::new(valid_config()).expect("a valid configuration must be accepted")
}

fn outcome(pv: Vec<u32>, eval: f32, states: u64) -> SearchOutcome<u32, f32> {
    SearchOutcome {
        pv,
        eval,
        counter: SearchCounter { states_visited: states, time_spent_ns: states },
    }
}

fn start(snapshot: u64, steps: u32) -> SearchAction<u64> {
    SearchAction::Start { maximize_player: PlayerId::PlayerSecond, game_state: snapshot, steps }
}

fn expect_respond(reply: WorkerReply<u32, f32>) -> SearchReturn<u32, f32> {
    match reply {
        WorkerReply::Respond(r) => r,
        _ => panic!("expected a response message"),
    }
}

fn assert_default_ack(r: &SearchReturn<u32, f32>) {
    assert!(!r.0);
    assert!(r.1.is_none());
    assert_eq!(r.2, 0);
}

#[test]
fn start_acknowledges_and_opens_session() {
    let mut w = worker();
    let r = expect_respond(w.handle_input(start(7, 5)));
    assert_default_ack(&r);
    assert!(w.has_active_session());
    assert_eq!(w.steps_remaining(), Some(5));
    assert_eq!(w.snapshot(), Some(&7));
    assert_eq!(w.maximize_player(), Some(PlayerId::PlayerSecond));
    assert_eq!(w.engine_invocations(), 0);
}

#[test]
fn step_without_session_is_a_noop_ack() {
    let mut w = worker();
    let r = expect_respond(w.handle_input(SearchAction::Step));
    assert_default_ack(&r);
    assert_eq!(w.engine_invocations(), 0);
}

#[test]
fn finish_without_session_is_a_noop_ack() {
    let mut w = worker();
    let r = w.finish_step(outcome(vec![1], 0.5, 10), 99);
    assert_default_ack(&r);
    assert!(!w.has_active_session());
}

#[test]
fn zero_budget_session_is_immediately_final() {
    let mut w = worker();
    expect_respond(w.handle_input(start(7, 0)));
    assert!(!w.has_active_session());
    let r = expect_respond(w.handle_input(SearchAction::Step));
    assert!(r.0);
    assert!(r.1.is_none());
    assert_eq!(r.2, 0);
    assert_eq!(w.engine_invocations(), 0);
}

#[test]
fn accumulated_time_and_budget_are_tracked() {
    let mut w = worker();
    expect_respond(w.handle_input(start(7, 2)));
    assert!(matches!(w.handle_input(SearchAction::Step), WorkerReply::RunSearch));
    let r1 = w.finish_step(outcome(vec![4], 0.1, 10), 100);
    assert!(!r1.0);
    assert_eq!(r1.2, 100);
    assert_eq!(w.steps_remaining(), Some(1));
    assert!(matches!(w.handle_input(SearchAction::Step), WorkerReply::RunSearch));
    let r2 = w.finish_step(outcome(vec![4, 5], 0.2, 10), 50);
    assert!(r2.0);
    assert_eq!(r2.2, 150);
    assert!(!w.has_active_session());
    assert_eq!(w.engine_invocations(), 2);
}

#[test]
fn merge_across_steps_retains_longer_stale_plan() {
    // The documented weakness of the tie-break: after a two-move plan with
    // evaluation 0.3, a one-move plan with evaluation 0.9 does not replace
    // it; the best-so-far after the second step still carries the stale
    // plan and its evaluation.
    let mut w = worker();
    expect_respond(w.handle_input(start(7, 3)));
    assert!(matches!(w.handle_input(SearchAction::Step), WorkerReply::RunSearch));
    let r1 = w.finish_step(outcome(vec![11, 12], 0.3, 100), 10);
    let o1 = r1.1.expect("first step must report an outcome");
    assert_eq!(o1.pv, vec![11, 12]);
    assert!(matches!(w.handle_input(SearchAction::Step), WorkerReply::RunSearch));
    let r2 = w.finish_step(outcome(vec![99], 0.9, 50), 10);
    let o2 = r2.1.expect("second step must report an outcome");
    assert_eq!(o2.pv, vec![11, 12]);
    assert_eq!(o2.eval, 0.3);
    assert_eq!(o2.counter.states_visited, 150);
}

#[test]
fn reported_counters_are_monotone() {
    let mut w = worker();
    expect_respond(w.handle_input(start(7, 3)));
    let mut last = SearchCounter { states_visited: 0, time_spent_ns: 0 };
    for states in [30u64, 10, 20] {
        assert!(matches!(w.handle_input(SearchAction::Step), WorkerReply::RunSearch));
        let r = w.finish_step(outcome(vec![1], 0.5, states), 10);
        let o = r.1.expect("every step must report an outcome");
        assert!(o.counter.states_visited >= last.states_visited);
        assert!(o.counter.time_spent_ns >= last.time_spent_ns);
        last = o.counter;
    }
}

#[test]
fn exhausted_session_reacknowledges_identically() {
    let mut w = worker();
    expect_respond(w.handle_input(start(7, 1)));
    assert!(matches!(w.handle_input(SearchAction::Step), WorkerReply::RunSearch));
    let last = w.finish_step(outcome(vec![8, 9], 0.6, 42), 77);
    assert!(last.0);
    let invocations = w.engine_invocations();
    for _ in 0..3 {
        let again = expect_respond(w.handle_input(SearchAction::Step));
        assert_eq!(again.0, last.0);
        assert_eq!(again.2, last.2);
        let o_last = last.1.as_ref().expect("final response carries the outcome");
        let o_again = again.1.expect("re-acknowledgement carries the outcome");
        assert_eq!(o_again.pv, o_last.pv);
        assert_eq!(o_again.eval, o_last.eval);
        assert_eq!(o_again.counter, o_last.counter);
        assert_eq!(w.engine_invocations(), invocations);
    }
}

#[test]
fn single_budget_session_invokes_engine_once() {
    let mut w = worker();
    expect_respond(w.handle_input(start(7, 1)));
    assert!(matches!(w.handle_input(SearchAction::Step), WorkerReply::RunSearch));
    let r = w.finish_step(outcome(vec![3], 0.5, 10), 10);
    assert!(r.0);
    assert_eq!(w.engine_invocations(), 1);
    let again = expect_respond(w.handle_input(SearchAction::Step));
    assert!(again.0);
    assert_eq!(w.engine_invocations(), 1);
}

#[test]
fn abandon_clears_session_state() {
    let mut w = worker();
    expect_respond(w.handle_input(start(7, 5)));
    assert!(matches!(w.handle_input(SearchAction::Step), WorkerReply::RunSearch));
    let _ = w.finish_step(outcome(vec![2], 0.5, 10), 10);
    let ack = expect_respond(w.handle_input(SearchAction::Abandon));
    assert_default_ack(&ack);
    assert!(!w.has_active_session());
    // The next step must be the no-active-session no-op, not a continuation
    // of the abandoned session.
    let r = expect_respond(w.handle_input(SearchAction::Step));
    assert_default_ack(&r);
    assert_eq!(w.engine_invocations(), 1);
}

#[test]
fn start_overwrites_a_previous_session() {
    let mut w = worker();
    expect_respond(w.handle_input(start(7, 5)));
    assert!(matches!(w.handle_input(SearchAction::Step), WorkerReply::RunSearch));
    let _ = w.finish_step(outcome(vec![2, 3], 0.5, 10), 10);
    expect_respond(w.handle_input(start(8, 2)));
    assert_eq!(w.steps_remaining(), Some(2));
    assert_eq!(w.snapshot(), Some(&8));
    // The fresh session has no best-so-far: its first report carries only
    // the new outcome.
    assert!(matches!(w.handle_input(SearchAction::Step), WorkerReply::RunSearch));
    let r = w.finish_step(outcome(vec![1], 0.2, 5), 10);
    let o = r.1.expect("step must report an outcome");
    assert_eq!(o.pv, vec![1]);
    assert_eq!(o.counter.states_visited, 5);
    assert_eq!(r.2, 10);
}

#[test]
fn new_rejects_zero_time_budget() {
    let mut bad = valid_config();
    bad.time_budget_per_step_ms = 0;
    let r = SearchWorker::<u64, u32, f32>::new(bad);
    assert!(matches!(r, Err(ConfigError::ZeroTimeBudget)));
}

#[test]
fn set_config_validates_and_applies() {
    let mut w = worker();
    let mut bad = valid_config();
    bad.time_budget_per_step_ms = 0;
    assert!(matches!(
        w.handle_input(SearchAction::SetConfig(bad)),
        WorkerReply::ConfigRejected(ConfigError::ZeroTimeBudget)
    ));
    assert_eq!(w.current_config().time_budget_per_step_ms, 500);
    let mut faster = valid_config();
    faster.time_budget_per_step_ms = 100;
    assert!(matches!(w.handle_input(SearchAction::SetConfig(faster)), WorkerReply::ConfigApplied));
    assert_eq!(w.current_config().time_budget_per_step_ms, 100);
}
