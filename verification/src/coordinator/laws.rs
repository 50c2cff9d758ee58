//! What holds of the coordinator in every run.

use vstd::prelude::*;
use crate::channel::{LauncherStateUpdate, MessageModel};
use crate::coordinator::model::{
    attempt_trace, requested_at, ActionModel, CoordinatorModel, EventModel, JobModel,
};
use crate::coordinator::Rejection;
use crate::outcome::OutcomeModel;
use crate::status::PatchDescriptor;

verus! {

/// Every transition keeps the state well formed.
pub proof fn lemma_transition_keeps_wf(state: CoordinatorModel, event: EventModel)
    requires
        state.wf(),
    ensures
        state.transition(event).state.wf(),
{
}

/// A refused event changes nothing and hands out nothing.
pub proof fn lemma_refusal_changes_nothing(state: CoordinatorModel, event: EventModel)
    requires
        state.transition(event).rejection is Some,
    ensures
        state.transition(event).state == state,
        state.transition(event).actions == Seq::<ActionModel>::empty(),
{
}

/// A request for a patch whose status forbids applying is refused as a logic
/// fault in every phase: the state stays as it is and no action is handed out,
/// so the applier is never run for it.
pub proof fn lemma_forbidden_status_is_refused(
    state: CoordinatorModel,
    descriptor: PatchDescriptor,
    install_path: Seq<char>,
)
    requires
        !descriptor.status().permits_apply(),
    ensures
        state.transition(EventModel::Trigger { descriptor, install_path }) == state.refuse(
            Rejection::LogicFault,
        ),
        state.opening(descriptor, install_path) == state.refuse(Rejection::LogicFault),
        !state.starts_apply(EventModel::Trigger { descriptor, install_path }),
{
}

/// A request that arrives while the coordinator is not `Idle` is refused: the
/// state stays as it is and no action is handed out.
pub proof fn lemma_request_while_busy_is_refused(
    state: CoordinatorModel,
    descriptor: PatchDescriptor,
    install_path: Seq<char>,
)
    requires
        !(state.phase is Idle),
    ensures
        state.transition(EventModel::Trigger { descriptor, install_path }).rejection is Some,
        state.opening(descriptor, install_path).rejection is Some,
        state.opening(descriptor, install_path).state == state,
        state.opening(descriptor, install_path).actions == Seq::<ActionModel>::empty(),
        descriptor.status().permits_apply() ==> state.opening(descriptor, install_path).rejection
            == Some(Rejection::Busy),
{
}

/// From `Idle`, a permitted request and the applier's return lead back to
/// `Idle` through exactly the actions of `attempt_trace`; the first two are
/// handed out before the applier runs, the others after it has returned.
pub proof fn lemma_attempt_runs_its_course(
    state: CoordinatorModel,
    descriptor: PatchDescriptor,
    install_path: Seq<char>,
    outcome: OutcomeModel,
)
    requires
        state.wf(),
        state.phase is Idle,
        descriptor.status().permits_apply(),
    ensures
        ({
            let opening = state.opening(descriptor, install_path);
            let completion = opening.state.completion(outcome);
            let whole = state.attempt(descriptor, install_path, outcome);
            &&& opening.rejection is None
            &&& opening.state.phase is Applying
            &&& opening.actions == attempt_trace(descriptor, install_path, outcome).take(2)
            &&& completion.rejection is None
            &&& completion.state == CoordinatorModel::idle()
            &&& completion.actions == attempt_trace(descriptor, install_path, outcome).skip(2)
            &&& whole.rejection is None
            &&& whole.state == CoordinatorModel::idle()
            &&& whole.actions == attempt_trace(descriptor, install_path, outcome)
        }),
{
    let trace = attempt_trace(descriptor, install_path, outcome);
    let opening = state.opening(descriptor, install_path);
    let completion = opening.state.completion(outcome);
    let whole = state.attempt(descriptor, install_path, outcome);
    assert(opening.actions =~= trace.take(2));
    assert(completion.actions =~= trace.skip(2));
    assert(whole.actions =~= trace);
}

/// In an attempt the controls are disabled before the applier is started, the
/// applier is started once, and the controls are enabled exactly once, after
/// the applier was started, whether it succeeds or fails.
pub proof fn lemma_controls_disabled_then_enabled_once(
    descriptor: PatchDescriptor,
    install_path: Seq<char>,
    outcome: OutcomeModel,
)
    ensures
        ({
            let trace = attempt_trace(descriptor, install_path, outcome);
            let disable = ActionModel::Notify(MessageModel::SetControlsDisabled(true));
            let enable = ActionModel::Notify(MessageModel::SetControlsDisabled(false));
            let last = trace.len() - 1;
            &&& trace[0] == disable
            &&& trace[1] is RunApply
            &&& trace[last - 1] == enable
            &&& 1 < last - 1
            &&& forall|i: int| 0 <= i < trace.len() && trace[i] == disable ==> i == 0
            &&& forall|i: int| 0 <= i < trace.len() && trace[i] is RunApply ==> i == 1
            &&& forall|i: int| 0 <= i < trace.len() && trace[i] == enable ==> i == last - 1
        }),
{
}

/// A failed attempt shows the user exactly one notification, which carries the
/// error's text, and a successful one shows none; either ends with the one
/// request for a refresh, which asks for a retry exactly after a success, does
/// not look at downloads and shows the status view.
pub proof fn lemma_failure_is_reported_once(
    descriptor: PatchDescriptor,
    install_path: Seq<char>,
    outcome: OutcomeModel,
)
    ensures
        ({
            let trace = attempt_trace(descriptor, install_path, outcome);
            let last = trace.len() - 1;
            &&& outcome is Success ==> forall|i: int|
                0 <= i < trace.len() ==> !(#[trigger] trace[i]).shows_notification()
            &&& outcome matches OutcomeModel::Failure { kind, text } ==> {
                &&& trace[2] == ActionModel::Notify(MessageModel::failure(text))
                &&& forall|i: int|
                    0 <= i < trace.len() && (#[trigger] trace[i]).shows_notification() ==> i == 2
            }
            &&& trace[last] == ActionModel::Notify(
                MessageModel::RequestStateRefresh(
                    LauncherStateUpdate {
                        check_downloads: false,
                        retry_apply: outcome is Success,
                        show_status_view: true,
                    },
                ),
            )
            &&& forall|i: int| 0 <= i < trace.len() && (#[trigger] trace[i]).asks_refresh() ==> i == last
        }),
{
}

/// Once the applier runs, the coordinator stays in `Applying` until the
/// applier's return is taken.
proof fn lemma_applying_until_finished(
    start: CoordinatorModel,
    events: Seq<EventModel>,
    from: int,
    to: int,
)
    requires
        0 <= from <= to <= events.len(),
        start.state_after(events.take(from)).phase is Applying,
        forall|k: int|
            from <= k < to ==> !(#[trigger] start.state_after(events.take(k))).ends_apply(events[k]),
    ensures
        start.state_after(events.take(to)).phase is Applying,
    decreases to - from,
{
    if from < to {
        lemma_applying_until_finished(start, events, from, to - 1);
        let before = start.state_after(events.take(to - 1));
        assert(!before.ends_apply(events[to - 1]));
        assert(events.take(to).drop_last() =~= events.take(to - 1));
        assert(events.take(to).last() == events[to - 1]);
    }
}

/// Whatever events arrive, in whatever order: between two orders to run the
/// applier lies the accepted return of the first. No second run starts while
/// one is in flight.
pub proof fn lemma_applies_never_overlap(
    start: CoordinatorModel,
    events: Seq<EventModel>,
    first: int,
    second: int,
)
    requires
        0 <= first < second < events.len(),
        start.state_after(events.take(first)).starts_apply(events[first]),
        start.state_after(events.take(second)).starts_apply(events[second]),
    ensures
        exists|k: int|
            first < k < second && (#[trigger] start.state_after(events.take(k))).ends_apply(events[k]),
{
    if !(exists|k: int|
        first < k < second && (#[trigger] start.state_after(events.take(k))).ends_apply(events[k])) {
        assert(events.take(first + 1).drop_last() =~= events.take(first));
        assert(events.take(first + 1).last() == events[first]);
        assert(start.state_after(events.take(first + 1)).phase is Applying);
        lemma_applying_until_finished(start, events, first + 1, second);
        assert(false);
    }
}

/// From `Idle`, an order that waits was asked for by one of the events so far.
proof fn lemma_pending_was_requested(events: Seq<EventModel>, upto: int)
    requires
        0 <= upto <= events.len(),
    ensures
        CoordinatorModel::idle().state_after(events.take(upto)).wf(),
        CoordinatorModel::idle().state_after(events.take(upto)).pending matches Some(job) ==> exists|
            i: int,
        |
            0 <= i < upto && #[trigger] requested_at(events, i, job),
    decreases upto,
{
    if upto > 0 {
        lemma_pending_was_requested(events, upto - 1);
        assert(events.take(upto).drop_last() =~= events.take(upto - 1));
        assert(events.take(upto).last() == events[upto - 1]);
        let before = CoordinatorModel::idle().state_after(events.take(upto - 1));
        let after = CoordinatorModel::idle().state_after(events.take(upto));
        assert(after == before.transition(events[upto - 1]).state);
        if after.pending is Some {
            let job = after.pending->0;
            if before.pending == Some(job) {
                let i = choose|i: int| 0 <= i < upto - 1 && #[trigger] requested_at(events, i, job);
                assert(requested_at(events, i, job));
            } else {
                assert(requested_at(events, upto - 1, job));
            }
        }
    }
}

/// Whatever events arrive after `Idle`: every order to run the applier was
/// asked for by an earlier request whose status permits applying, and names
/// the installation and the privileges of that request. For a patch that is
/// not available or outdated the applier is never run.
pub proof fn lemma_every_run_was_requested(events: Seq<EventModel>, at: int, job: JobModel)
    requires
        0 <= at < events.len(),
        CoordinatorModel::idle().state_after(events.take(at)).transition(events[at]).actions.contains(
            ActionModel::RunApply(job),
        ),
    ensures
        exists|i: int| 0 <= i < at && #[trigger] requested_at(events, i, job),
{
    lemma_pending_was_requested(events, at);
    let before = CoordinatorModel::idle().state_after(events.take(at));
    let actions = before.transition(events[at]).actions;
    let place = choose|place: int| 0 <= place < actions.len() && actions[place] == ActionModel::RunApply(job);
    assert(actions[place] == ActionModel::RunApply(job));
    assert(before.pending == Some(job));
}

} // verus!
