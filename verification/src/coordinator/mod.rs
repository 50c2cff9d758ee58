//! The coordinator of apply attempts: a state machine that turns one request
//! into an ordered series of notifications and one order to run the applier.
//!
//! The coordinator does no work of its own. Each call takes an event, moves to
//! the next phase and hands back what is to be done; the caller does it, in
//! order, and reports back with the next event.
//!
//! `model` holds the machine as contracts see it, `laws` what is proved of it.

pub mod laws;
pub mod model;

use vstd::prelude::*;
use crate::channel::{ChannelMessage, LauncherStateUpdate, MessageModel};
use crate::coordinator::model::{
    closing_actions, ActionModel, CoordinatorModel, EventModel, JobModel, StepModel,
};
use crate::outcome::ApplyOutcome;
use crate::status::{classify, PatchDescriptor};

verus! {

/// Where the coordinator stands in the life of an apply request.
#[derive(Clone, Copy, Debug, PartialEq, Eq, Structural)]
pub enum CoordinatorPhase {
    /// No request is in flight.
    Idle,
    /// A request was accepted and the controls are being disabled.
    Disabling,
    /// The applier is running.
    Applying,
    /// The applier has returned without an error.
    Succeeded,
    /// The applier has returned an error, and the user was told.
    Failed,
    /// The controls are enabled again and a refresh was asked for.
    Refreshing,
}

/// Why the coordinator refused an event.
#[derive(Clone, Copy, Debug, PartialEq, Eq, Structural)]
pub enum Rejection {
    /// An apply was asked for a patch whose status forbids it.
    LogicFault,
    /// An apply was asked for while another request is in flight.
    Busy,
    /// The event does not belong to the current phase.
    OutOfTurn,
}

/// The order to run the applier once.
#[derive(Clone, Debug, PartialEq, Eq)]
pub struct ApplyJob {
    /// The installation to patch.
    pub install_path: String,
    /// Whether to ask for elevated privileges.
    pub root_required: bool,
}

impl View for ApplyJob {
    type V = JobModel;

    open spec fn view(&self) -> JobModel {
        JobModel { install_path: self.install_path@, root_required: self.root_required }
    }
}

/// What can happen to the coordinator.
#[derive(Clone, Debug, PartialEq, Eq)]
pub enum CoordinatorEvent {
    /// The user asks to apply the described patch to the installation at the path.
    Trigger { descriptor: PatchDescriptor, install_path: String },
    /// The caller has done what the last step handed out.
    Proceed,
    /// The applier has returned.
    ApplyFinished(ApplyOutcome),
}

impl View for CoordinatorEvent {
    type V = EventModel;

    open spec fn view(&self) -> EventModel {
        match self {
            CoordinatorEvent::Trigger { descriptor, install_path } => EventModel::Trigger {
                descriptor: *descriptor,
                install_path: install_path@,
            },
            CoordinatorEvent::Proceed => EventModel::Proceed,
            CoordinatorEvent::ApplyFinished(outcome) => EventModel::ApplyFinished(outcome@),
        }
    }
}

/// What the caller is to do after a step.
#[derive(Clone, Debug, PartialEq, Eq)]
pub enum CoordinatorAction {
    /// Send the message to the interactive side.
    Notify(ChannelMessage),
    /// Run the applier, away from the interactive side, and report its outcome.
    RunApply(ApplyJob),
}

impl View for CoordinatorAction {
    type V = ActionModel;

    open spec fn view(&self) -> ActionModel {
        match self {
            CoordinatorAction::Notify(message) => ActionModel::Notify(message@),
            CoordinatorAction::RunApply(job) => ActionModel::RunApply(job@),
        }
    }
}

/// The actions of a list, each as contracts see it.
pub open spec fn action_models(actions: Seq<CoordinatorAction>) -> Seq<ActionModel> {
    actions.map_values(|action: CoordinatorAction| action@)
}

/// What a step hands back to the caller.
#[derive(Clone, Debug, PartialEq, Eq)]
pub struct StepReport {
    /// What is to be done now, in this order.
    pub actions: Vec<CoordinatorAction>,
    /// Why the event was refused, if it was.
    pub rejection: Option<Rejection>,
}

impl StepReport {
    /// Whether the report is that of the step, or series of steps, `model`.
    pub open spec fn matches_model(&self, model: StepModel) -> bool {
        &&& action_models(self.actions@) == model.actions
        &&& self.rejection == model.rejection
    }

    fn accepted(actions: Vec<CoordinatorAction>) -> (report: StepReport)
        ensures
            report.actions == actions,
            report.rejection is None,
    {
        StepReport { actions, rejection: None }
    }

    fn refused(reason: Rejection) -> (report: StepReport)
        ensures
            action_models(report.actions@) == Seq::<ActionModel>::empty(),
            report.rejection == Some(reason),
    {
        let actions: Vec<CoordinatorAction> = Vec::new();
        assert(action_models(actions@) =~= Seq::<ActionModel>::empty());
        StepReport { actions, rejection: Some(reason) }
    }
}

/// Guards the apply attempts on one installation: at most one is in flight.
#[derive(Debug)]
pub struct PatchOperationCoordinator {
    phase: CoordinatorPhase,
    pending: Option<ApplyJob>,
}

impl View for PatchOperationCoordinator {
    type V = CoordinatorModel;

    closed spec fn view(&self) -> CoordinatorModel {
        CoordinatorModel {
            phase: self.phase,
            pending: match self.pending {
                Some(job) => Some(job@),
                None => None,
            },
        }
    }
}

impl PatchOperationCoordinator {
    /// A coordinator with no request in flight.
    pub fn new() -> (coordinator: PatchOperationCoordinator)
        ensures
            coordinator@ == CoordinatorModel::idle(),
            coordinator@.wf(),
    {
        PatchOperationCoordinator { phase: CoordinatorPhase::Idle, pending: None }
    }

    /// The current phase.
    pub fn phase(&self) -> (phase: CoordinatorPhase)
        ensures
            phase == self@.phase,
    {
        self.phase
    }

    /// Whether a request is in flight.
    pub fn is_busy(&self) -> (busy: bool)
        ensures
            busy == !(self@.phase is Idle),
    {
        match self.phase {
            CoordinatorPhase::Idle => false,
            _ => true,
        }
    }

    /// Takes one event: moves to the next phase and hands back what is to be
    /// done. An event that the current phase does not admit is refused, and
    /// then nothing changes.
    pub fn step(&mut self, event: CoordinatorEvent) -> (report: StepReport)
        ensures
            final(self)@ == old(self)@.transition(event@).state,
            report.matches_model(old(self)@.transition(event@)),
            old(self)@.wf() ==> final(self)@.wf(),
    {
        match event {
            CoordinatorEvent::Trigger { descriptor, install_path } => {
                if !classify(&descriptor).allows_apply() {
                    StepReport::refused(Rejection::LogicFault)
                } else if self.is_busy() {
                    StepReport::refused(Rejection::Busy)
                } else {
                    self.phase = CoordinatorPhase::Disabling;
                    self.pending = Some(
                        ApplyJob { install_path, root_required: descriptor.root_required },
                    );
                    let actions = vec![
                        CoordinatorAction::Notify(ChannelMessage::SetControlsDisabled(true)),
                    ];
                    assert(action_models(actions@) =~= seq![
                        ActionModel::Notify(MessageModel::SetControlsDisabled(true)),
                    ]);
                    StepReport::accepted(actions)
                }
            },
            CoordinatorEvent::Proceed => {
                match self.phase {
                    CoordinatorPhase::Disabling => {
                        match self.pending.take() {
                            Some(job) => {
                                self.phase = CoordinatorPhase::Applying;
                                let ghost order = job@;
                                let actions = vec![CoordinatorAction::RunApply(job)];
                                assert(action_models(actions@) =~= seq![ActionModel::RunApply(order)]);
                                StepReport::accepted(actions)
                            },
                            None => StepReport::refused(Rejection::OutOfTurn),
                        }
                    },
                    CoordinatorPhase::Succeeded => {
                        self.phase = CoordinatorPhase::Refreshing;
                        self.pending = None;
                        StepReport::accepted(closing(true))
                    },
                    CoordinatorPhase::Failed => {
                        self.phase = CoordinatorPhase::Refreshing;
                        self.pending = None;
                        StepReport::accepted(closing(false))
                    },
                    CoordinatorPhase::Refreshing => {
                        self.phase = CoordinatorPhase::Idle;
                        self.pending = None;
                        let actions: Vec<CoordinatorAction> = Vec::new();
                        assert(action_models(actions@) =~= Seq::<ActionModel>::empty());
                        StepReport::accepted(actions)
                    },
                    _ => StepReport::refused(Rejection::OutOfTurn),
                }
            },
            CoordinatorEvent::ApplyFinished(outcome) => {
                match self.phase {
                    CoordinatorPhase::Applying => {
                        self.pending = None;
                        match outcome {
                            ApplyOutcome::Success => {
                                self.phase = CoordinatorPhase::Succeeded;
                                let actions: Vec<CoordinatorAction> = Vec::new();
                                assert(action_models(actions@) =~= Seq::<ActionModel>::empty());
                                StepReport::accepted(actions)
                            },
                            ApplyOutcome::Failure(error) => {
                                self.phase = CoordinatorPhase::Failed;
                                let actions = vec![
                                    CoordinatorAction::Notify(ChannelMessage::failure_notice(&error)),
                                ];
                                assert(action_models(actions@) =~= seq![
                                    ActionModel::Notify(MessageModel::failure(error.text())),
                                ]);
                                StepReport::accepted(actions)
                            },
                        }
                    },
                    _ => StepReport::refused(Rejection::OutOfTurn),
                }
            },
        }
    }
}

/// Builds the two messages that end an attempt.
fn closing(succeeded: bool) -> (actions: Vec<CoordinatorAction>)
    ensures
        action_models(actions@) == closing_actions(succeeded),
{
    let actions = vec![
        CoordinatorAction::Notify(ChannelMessage::SetControlsDisabled(false)),
        CoordinatorAction::Notify(
            ChannelMessage::RequestStateRefresh(LauncherStateUpdate::after_attempt(succeeded)),
        ),
    ];
    assert(action_models(actions@) =~= closing_actions(succeeded));
    actions
}

impl PatchOperationCoordinator {
    /// Feeds one more event after the steps reported in `report`, unless one of
    /// them was refused.
    fn advance(&mut self, report: StepReport, event: CoordinatorEvent, Ghost(so_far): Ghost<
        StepModel,
    >) -> (next: StepReport)
        requires
            report.matches_model(so_far),
            old(self)@ == so_far.state,
        ensures
            next.matches_model(so_far.followed_by(event@)),
            final(self)@ == so_far.followed_by(event@).state,
            old(self)@.wf() ==> final(self)@.wf(),
    {
        if report.rejection.is_some() {
            report
        } else {
            let mut report = report;
            let mut more = self.step(event);
            proof {
                lemma_models_of_concatenation(report.actions@, more.actions@);
            }
            report.actions.append(&mut more.actions);
            report.rejection = more.rejection;
            report
        }
    }
}

/// The models of a concatenation are the concatenation of the models.
proof fn lemma_models_of_concatenation(first: Seq<CoordinatorAction>, second: Seq<CoordinatorAction>)
    ensures
        action_models(first + second) == action_models(first) + action_models(second),
{
    assert(action_models(first + second) =~= action_models(first) + action_models(second));
}

/// Starts an attempt to apply the described patch to the installation at
/// `install_path`.
///
/// When the patch may be applied and no request is in flight, the report holds
/// the notification that disables the controls and then the order to run the
/// applier, and the coordinator is in `Applying`. The caller sends the first
/// from the interactive side, runs the second away from it, and hands the
/// outcome to [`finish_apply`]. Otherwise the request is refused, nothing
/// changes and nothing is handed out: with `LogicFault` when the status forbids
/// applying, with `Busy` when a request is in flight.
pub fn apply_patch(
    coordinator: &mut PatchOperationCoordinator,
    descriptor: &PatchDescriptor,
    install_path: String,
) -> (report: StepReport)
    ensures
        report.matches_model(old(coordinator)@.opening(*descriptor, install_path@)),
        final(coordinator)@ == old(coordinator)@.opening(*descriptor, install_path@).state,
        old(coordinator)@.wf() ==> final(coordinator)@.wf(),
{
    let ghost start = coordinator@;
    let ghost request = EventModel::Trigger { descriptor: *descriptor, install_path: install_path@ };
    let first = coordinator.step(CoordinatorEvent::Trigger { descriptor: *descriptor, install_path });
    coordinator.advance(first, CoordinatorEvent::Proceed, Ghost(start.transition(request)))
}

/// Ends the attempt that is in flight with the applier's outcome.
///
/// In `Applying`, the report holds, in order: after a failure the one
/// notification that carries the error's text; the notification that enables
/// the controls; the request for a refresh, which asks for a retry only after
/// a success. The coordinator is back in `Idle`. In any other phase the outcome
/// is refused with `OutOfTurn`, nothing changes and nothing is handed out.
pub fn finish_apply(coordinator: &mut PatchOperationCoordinator, outcome: ApplyOutcome) -> (report:
    StepReport)
    ensures
        report.matches_model(old(coordinator)@.completion(outcome@)),
        final(coordinator)@ == old(coordinator)@.completion(outcome@).state,
        old(coordinator)@.wf() ==> final(coordinator)@.wf(),
{
    let ghost start = coordinator@;
    let ghost returned = EventModel::ApplyFinished(outcome@);
    let first = coordinator.step(CoordinatorEvent::ApplyFinished(outcome));
    let second = coordinator.advance(
        first,
        CoordinatorEvent::Proceed,
        Ghost(start.transition(returned)),
    );
    coordinator.advance(
        second,
        CoordinatorEvent::Proceed,
        Ghost(start.transition(returned).followed_by(EventModel::Proceed)),
    )
}

} // verus!
