//! How an attempt to apply a patch can end.

use vstd::prelude::*;

verus! {

/// The ways in which applying a patch, or inspecting an installation, can fail.
#[derive(Clone, Copy, Debug, PartialEq, Eq, Structural)]
pub enum ApplyErrorKind {
    /// The filesystem refused: a missing path, a denied permission, a full disk.
    Io,
    /// Elevated privileges were needed and not granted.
    PrivilegeDenied,
    /// The payload does not fit the installed binary.
    Incompatible,
}

/// A failure of the applier, with the cause in words.
#[derive(Clone, Debug, PartialEq, Eq)]
pub enum ApplyError {
    Io(String),
    PrivilegeDenied(String),
    Incompatible(String),
}

impl ApplyError {
    /// Which way of failing this is.
    pub open spec fn kind(&self) -> ApplyErrorKind {
        match self {
            ApplyError::Io(_) => ApplyErrorKind::Io,
            ApplyError::PrivilegeDenied(_) => ApplyErrorKind::PrivilegeDenied,
            ApplyError::Incompatible(_) => ApplyErrorKind::Incompatible,
        }
    }

    /// The cause, as the characters of its text.
    pub open spec fn text(&self) -> Seq<char> {
        match self {
            ApplyError::Io(cause) => cause@,
            ApplyError::PrivilegeDenied(cause) => cause@,
            ApplyError::Incompatible(cause) => cause@,
        }
    }

    /// The human-readable cause of the failure.
    pub fn message(&self) -> (message: String)
        ensures
            message@ == self.text(),
    {
        match self {
            ApplyError::Io(cause) => cause.clone(),
            ApplyError::PrivilegeDenied(cause) => cause.clone(),
            ApplyError::Incompatible(cause) => cause.clone(),
        }
    }
}

/// The result of one apply attempt, read once by the coordinator and then dropped.
#[derive(Clone, Debug, PartialEq, Eq)]
pub enum ApplyOutcome {
    Success,
    Failure(ApplyError),
}

/// An outcome as contracts see it: success, or the text of the failure.
pub enum OutcomeModel {
    Success,
    Failure { kind: ApplyErrorKind, text: Seq<char> },
}

impl View for ApplyOutcome {
    type V = OutcomeModel;

    open spec fn view(&self) -> OutcomeModel {
        match self {
            ApplyOutcome::Success => OutcomeModel::Success,
            ApplyOutcome::Failure(error) => OutcomeModel::Failure {
                kind: error.kind(),
                text: error.text(),
            },
        }
    }
}

impl ApplyOutcome {
    /// Reads the applier's result as an outcome.
    pub fn from_result(result: Result<(), ApplyError>) -> (outcome: ApplyOutcome)
        ensures
            result is Ok ==> outcome == ApplyOutcome::Success,
            result is Err ==> outcome == ApplyOutcome::Failure(result->Err_0),
    {
        match result {
            Ok(()) => ApplyOutcome::Success,
            Err(error) => ApplyOutcome::Failure(error),
        }
    }

    /// Whether the attempt went through.
    pub fn is_success(&self) -> (success: bool)
        ensures
            success == (self@ is Success),
    {
        match self {
            ApplyOutcome::Success => true,
            ApplyOutcome::Failure(_) => false,
        }
    }
}

} // verus!
