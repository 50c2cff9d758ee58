//! The coordinator as contracts see it: its states, its events, and its
//! transition function.

use vstd::prelude::*;
use crate::channel::{LauncherStateUpdate, MessageModel};
use crate::coordinator::{CoordinatorPhase, Rejection};
use crate::outcome::OutcomeModel;
use crate::status::PatchDescriptor;

verus! {

/// An order as contracts see it.
pub struct JobModel {
    pub install_path: Seq<char>,
    pub root_required: bool,
}

/// An event as contracts see it.
pub enum EventModel {
    Trigger { descriptor: PatchDescriptor, install_path: Seq<char> },
    Proceed,
    ApplyFinished(OutcomeModel),
}

/// An action as contracts see it.
pub enum ActionModel {
    Notify(MessageModel),
    RunApply(JobModel),
}

impl ActionModel {
    /// Whether the action shows the user a notification.
    pub open spec fn shows_notification(self) -> bool {
        self is Notify && self->Notify_0 is ShowNotification
    }

    /// Whether the action asks for a refresh of the launcher state.
    pub open spec fn asks_refresh(self) -> bool {
        self is Notify && self->Notify_0 is RequestStateRefresh
    }
}

/// The coordinator as contracts see it: its phase, and the order that waits
/// while the controls are being disabled.
pub struct CoordinatorModel {
    pub phase: CoordinatorPhase,
    pub pending: Option<JobModel>,
}

/// What a step yields: the next state, the actions in the order in which they
/// are to be done, and the reason if the event was refused.
pub struct StepModel {
    pub state: CoordinatorModel,
    pub actions: Seq<ActionModel>,
    pub rejection: Option<Rejection>,
}

impl CoordinatorModel {
    pub open spec fn idle() -> CoordinatorModel {
        CoordinatorModel { phase: CoordinatorPhase::Idle, pending: None }
    }

    /// An order waits exactly while the controls are being disabled.
    pub open spec fn wf(self) -> bool {
        self.pending is Some <==> self.phase is Disabling
    }

    pub open spec fn accept(phase: CoordinatorPhase, pending: Option<JobModel>, actions: Seq<
        ActionModel,
    >) -> StepModel {
        StepModel { state: CoordinatorModel { phase, pending }, actions, rejection: None }
    }

    /// A refused event changes nothing and hands out nothing.
    pub open spec fn refuse(self, reason: Rejection) -> StepModel {
        StepModel { state: self, actions: Seq::empty(), rejection: Some(reason) }
    }

    /// What follows a request to apply.
    pub open spec fn on_trigger(self, descriptor: PatchDescriptor, install_path: Seq<char>) -> StepModel {
        if !descriptor.status().permits_apply() {
            self.refuse(Rejection::LogicFault)
        } else if !(self.phase is Idle) {
            self.refuse(Rejection::Busy)
        } else {
            CoordinatorModel::accept(
                CoordinatorPhase::Disabling,
                Some(JobModel { install_path, root_required: descriptor.root_required }),
                seq![ActionModel::Notify(MessageModel::SetControlsDisabled(true))],
            )
        }
    }

    /// What follows the caller's report that the last actions are done.
    pub open spec fn on_proceed(self) -> StepModel {
        match self.phase {
            CoordinatorPhase::Disabling => match self.pending {
                Some(job) => CoordinatorModel::accept(
                    CoordinatorPhase::Applying,
                    None,
                    seq![ActionModel::RunApply(job)],
                ),
                None => self.refuse(Rejection::OutOfTurn),
            },
            CoordinatorPhase::Succeeded => CoordinatorModel::accept(
                CoordinatorPhase::Refreshing,
                None,
                closing_actions(true),
            ),
            CoordinatorPhase::Failed => CoordinatorModel::accept(
                CoordinatorPhase::Refreshing,
                None,
                closing_actions(false),
            ),
            CoordinatorPhase::Refreshing => CoordinatorModel::accept(
                CoordinatorPhase::Idle,
                None,
                Seq::empty(),
            ),
            _ => self.refuse(Rejection::OutOfTurn),
        }
    }

    /// What follows the applier's return.
    pub open spec fn on_finished(self, outcome: OutcomeModel) -> StepModel {
        if !(self.phase is Applying) {
            self.refuse(Rejection::OutOfTurn)
        } else {
            match outcome {
                OutcomeModel::Success => CoordinatorModel::accept(
                    CoordinatorPhase::Succeeded,
                    None,
                    Seq::empty(),
                ),
                OutcomeModel::Failure { kind, text } => CoordinatorModel::accept(
                    CoordinatorPhase::Failed,
                    None,
                    seq![ActionModel::Notify(MessageModel::failure(text))],
                ),
            }
        }
    }

    /// The transition function of the machine.
    pub open spec fn transition(self, event: EventModel) -> StepModel {
        match event {
            EventModel::Trigger { descriptor, install_path } => self.on_trigger(
                descriptor,
                install_path,
            ),
            EventModel::Proceed => self.on_proceed(),
            EventModel::ApplyFinished(outcome) => self.on_finished(outcome),
        }
    }
}

/// The two messages that end every attempt: the controls are enabled, then a
/// refresh is asked for, with a retry only after a success.
pub open spec fn closing_actions(succeeded: bool) -> Seq<ActionModel> {
    seq![
        ActionModel::Notify(MessageModel::SetControlsDisabled(false)),
        ActionModel::Notify(MessageModel::RequestStateRefresh(LauncherStateUpdate::following(succeeded))),
    ]
}

impl CoordinatorModel {
    /// The first half of an attempt: the request, then the caller's report that
    /// the controls are disabled.
    pub open spec fn opening(self, descriptor: PatchDescriptor, install_path: Seq<char>) -> StepModel {
        self.transition(EventModel::Trigger { descriptor, install_path }).followed_by(EventModel::Proceed)
    }

    /// The second half of an attempt: the applier's return, then the two
    /// reports that lead back to `Idle`.
    pub open spec fn completion(self, outcome: OutcomeModel) -> StepModel {
        self.transition(EventModel::ApplyFinished(outcome)).followed_by(EventModel::Proceed).followed_by(
            EventModel::Proceed,
        )
    }

    /// A whole attempt, from the request to the return to `Idle`.
    pub open spec fn attempt(
        self,
        descriptor: PatchDescriptor,
        install_path: Seq<char>,
        outcome: OutcomeModel,
    ) -> StepModel {
        self.opening(descriptor, install_path).followed_by(EventModel::ApplyFinished(outcome)).followed_by(
            EventModel::Proceed,
        ).followed_by(EventModel::Proceed)
    }

    /// The state after a series of events, each fed in turn.
    pub open spec fn state_after(self, events: Seq<EventModel>) -> CoordinatorModel
        decreases events.len(),
    {
        if events.len() == 0 {
            self
        } else {
            self.state_after(events.drop_last()).transition(events.last()).state
        }
    }

    /// Whether the event, taken in this state, hands out an order to run the applier.
    pub open spec fn starts_apply(self, event: EventModel) -> bool {
        exists|i: int|
            0 <= i < self.transition(event).actions.len() && #[trigger] self.transition(
                event,
            ).actions[i] is RunApply
    }

    /// Whether the event, taken in this state, is the accepted return of the applier.
    pub open spec fn ends_apply(self, event: EventModel) -> bool {
        self.phase is Applying && event is ApplyFinished
    }
}

impl StepModel {
    /// Feeds one more event, unless an event was refused before: then nothing
    /// more is done.
    pub open spec fn followed_by(self, event: EventModel) -> StepModel {
        if self.rejection is Some {
            self
        } else {
            let next = self.state.transition(event);
            StepModel {
                state: next.state,
                actions: self.actions + next.actions,
                rejection: next.rejection,
            }
        }
    }
}

/// The actions of a whole attempt, in order: disable the controls, run the
/// applier, after a failure report it, enable the controls, ask for a refresh.
pub open spec fn attempt_trace(
    descriptor: PatchDescriptor,
    install_path: Seq<char>,
    outcome: OutcomeModel,
) -> Seq<ActionModel> {
    let order = JobModel { install_path, root_required: descriptor.root_required };
    let opening = seq![
        ActionModel::Notify(MessageModel::SetControlsDisabled(true)),
        ActionModel::RunApply(order),
    ];
    let report = match outcome {
        OutcomeModel::Success => Seq::<ActionModel>::empty(),
        OutcomeModel::Failure { kind, text } => seq![ActionModel::Notify(MessageModel::failure(text))],
    };
    opening + report + closing_actions(outcome is Success)
}

/// Whether the event at `index` is a request that permits applying and asks
/// for exactly the order `job`.
pub open spec fn requested_at(events: Seq<EventModel>, index: int, job: JobModel) -> bool {
    &&& 0 <= index < events.len()
    &&& events[index] matches EventModel::Trigger { descriptor, install_path }
    &&& descriptor.status().permits_apply()
    &&& job == JobModel { install_path, root_required: descriptor.root_required }
}

} // verus!
