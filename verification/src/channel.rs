//! What the coordinator tells the interactive side.

use vstd::prelude::*;
use crate::outcome::ApplyError;

verus! {

/// What the interactive side should do once an apply attempt is over.
#[derive(Clone, Copy, Debug, PartialEq, Eq, Structural)]
pub struct LauncherStateUpdate {
    /// Whether to look for a pending download.
    pub check_downloads: bool,
    /// Whether another automatic apply should be attempted.
    pub retry_apply: bool,
    /// Whether to show the status view.
    pub show_status_view: bool,
}

impl LauncherStateUpdate {
    /// The update that follows an attempt: downloads are not looked at, the
    /// status view is shown, and a retry is asked for only after a success.
    pub open spec fn following(succeeded: bool) -> LauncherStateUpdate {
        LauncherStateUpdate { check_downloads: false, retry_apply: succeeded, show_status_view: true }
    }

    /// Builds the update that follows an attempt.
    pub fn after_attempt(succeeded: bool) -> (update: LauncherStateUpdate)
        ensures
            update == LauncherStateUpdate::following(succeeded),
    {
        LauncherStateUpdate { check_downloads: false, retry_apply: succeeded, show_status_view: true }
    }
}

/// A notification for the interactive side. They are delivered in the order in
/// which the coordinator hands them out.
#[derive(Clone, Debug, PartialEq, Eq)]
pub enum ChannelMessage {
    /// Disable (`true`) or enable (`false`) the controls that trigger an apply.
    SetControlsDisabled(bool),
    /// Show the user a message. The title is a message key.
    ShowNotification { title: String, description: String },
    /// Refresh the launcher state.
    RequestStateRefresh(LauncherStateUpdate),
}

/// A notification as contracts see it.
pub enum MessageModel {
    SetControlsDisabled(bool),
    ShowNotification { title: Seq<char>, description: Seq<char> },
    RequestStateRefresh(LauncherStateUpdate),
}

impl View for ChannelMessage {
    type V = MessageModel;

    open spec fn view(&self) -> MessageModel {
        match self {
            ChannelMessage::SetControlsDisabled(disabled) => MessageModel::SetControlsDisabled(
                *disabled,
            ),
            ChannelMessage::ShowNotification { title, description } => MessageModel::ShowNotification {
                title: title@,
                description: description@,
            },
            ChannelMessage::RequestStateRefresh(update) => MessageModel::RequestStateRefresh(*update),
        }
    }
}

/// The message key under which a failed attempt is reported.
pub open spec fn failure_title() -> Seq<char> {
    "game-patching-error"@
}

impl MessageModel {
    /// The notification that reports a failure with the given cause.
    pub open spec fn failure(cause: Seq<char>) -> MessageModel {
        MessageModel::ShowNotification { title: failure_title(), description: cause }
    }
}

impl ChannelMessage {
    /// Builds the one notification that reports `error` to the user: the title
    /// names the failure, the description is the error's own text.
    pub fn failure_notice(error: &ApplyError) -> (notice: ChannelMessage)
        ensures
            notice@ == MessageModel::failure(error.text()),
    {
        ChannelMessage::ShowNotification {
            title: "game-patching-error".to_owned(),
            description: error.message(),
        }
    }
}

} // verus!
