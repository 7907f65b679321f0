use vstd::prelude::*;

use crate::player::PlayerId;
use crate::search::ReturnView;
use crate::search::SearchReturn;

verus! {

/// A command the host coordinator should send to the worker.
#[derive(Clone, Copy, PartialEq, Eq, Structural, Debug)]
pub enum SessionCommand {
    /// Start a fresh search session for the current position.
    BeginSearch,
}

/// What the host coordinator should do with one progress message.
pub enum ProgressDirective<M> {
    /// The session is final and proposed a plan: apply its first move.
    ApplyMove(M),
    /// The session is not final yet: request one more step.
    RequestStep,
    /// The session is final with no proposed move: nothing to take.
    NoAction,
}

/// When to start a search: exactly when the observed position fingerprint or
/// the active player changed, and control now lies with the agent.
pub open spec fn spec_auto_start(
    prev_fingerprint: u64,
    prev_active: Option<PlayerId>,
    cur_fingerprint: u64,
    cur_active: Option<PlayerId>,
    agent: PlayerId,
) -> Option<SessionCommand> {
    if (prev_fingerprint != cur_fingerprint || prev_active != cur_active) && cur_active
        == Option::Some(agent) {
        Option::Some(SessionCommand::BeginSearch)
    } else {
        Option::None
    }
}

fn active_changed(a: Option<PlayerId>, b: Option<PlayerId>) -> (r: bool)
    ensures
        r == (a != b),
{
    match (a, b) {
        (Option::None, Option::None) => false,
        (Option::Some(x), Option::Some(y)) => x != y,
        _ => true,
    }
}

/// The reactive start rule of the host coordinator, as a pure function of
/// the previously observed and the currently observed position fingerprint
/// and active player: it orders a `Start` exactly when something changed and
/// the agent is to move.
pub fn auto_start(
    prev_fingerprint: u64,
    prev_active: Option<PlayerId>,
    cur_fingerprint: u64,
    cur_active: Option<PlayerId>,
    agent: PlayerId,
) -> (r: Option<SessionCommand>)
    ensures
        r == spec_auto_start(prev_fingerprint, prev_active, cur_fingerprint, cur_active, agent),
{
    let changed = prev_fingerprint != cur_fingerprint || active_changed(prev_active, cur_active);
    let agent_turn = match cur_active {
        Option::Some(p) => p == agent,
        Option::None => false,
    };
    if changed && agent_turn {
        Option::Some(SessionCommand::BeginSearch)
    } else {
        Option::None
    }
}

/// What the host does with one progress message: a non-final message asks
/// for the next step; a final message with a non-empty plan applies the
/// plan's first move; a final message with no outcome or an empty plan ends
/// the session with nothing to take.
pub open spec fn spec_on_progress<M, E>(ret: ReturnView<M, E>) -> ProgressDirective<M> {
    if !ret.is_final {
        ProgressDirective::RequestStep
    } else {
        match ret.outcome {
            Option::Some(o) => if o.pv.len() > 0 {
                ProgressDirective::ApplyMove(o.pv[0])
            } else {
                ProgressDirective::NoAction
            },
            Option::None => ProgressDirective::NoAction,
        }
    }
}

/// The progress rule of the host coordinator, matching `spec_on_progress`.
pub fn on_progress<M: Copy, E>(ret: &SearchReturn<M, E>) -> (r: ProgressDirective<M>)
    ensures
        r == spec_on_progress(ret@),
{
    if !ret.0 {
        ProgressDirective::RequestStep
    } else {
        match &ret.1 {
            Option::Some(o) => if o.pv.len() > 0 {
                ProgressDirective::ApplyMove(o.pv[0])
            } else {
                ProgressDirective::NoAction
            },
            Option::None => ProgressDirective::NoAction,
        }
    }
}

} // verus!
