//! How the shell treats each kind of failure.

use crate::arbiter::EXIT_FATAL;
use vstd::prelude::*;

verus! {

/// Where a failure comes from.
#[derive(Clone, Copy, Debug, PartialEq, Eq, Structural)]
pub enum FailureKind {
    /// A capability module could not be initialised.
    PluginInit,
    /// The main window could not be constructed.
    WindowConstruction,
    /// The instance marker could not be asked for.
    MarkerAcquisition,
    /// The host could not show a notification.
    Notification,
    /// The host could not open a URL.
    OpenUrl,
    /// The platform did not focus the primary window.
    Focus,
    /// The platform did not restore the primary window.
    Restore,
}

/// What is done about a failure.
#[derive(Clone, Copy, Debug, PartialEq, Eq, Structural)]
pub enum Disposition {
    /// The process ends with a diagnostic and a failure status.
    Terminate,
    /// The caller of the command gets the failure, described as a string;
    /// the process goes on.
    ReturnToCaller,
    /// The failure is dropped: nothing is reported anywhere.
    Ignore,
}

/// The treatment of each kind of failure: what startup needs is fatal, what
/// a command runs into goes back to its caller, and what only concerns the
/// look of the window is ignored.
pub open spec fn disposition_of(kind: FailureKind) -> Disposition {
    match kind {
        FailureKind::PluginInit => Disposition::Terminate,
        FailureKind::WindowConstruction => Disposition::Terminate,
        FailureKind::MarkerAcquisition => Disposition::Terminate,
        FailureKind::Notification => Disposition::ReturnToCaller,
        FailureKind::OpenUrl => Disposition::ReturnToCaller,
        FailureKind::Focus => Disposition::Ignore,
        FailureKind::Restore => Disposition::Ignore,
    }
}

/// What becomes of a failure with the given description.
pub enum Resolution {
    /// The process ends with this status and this diagnostic.
    Exit { status: i32, diagnostic: String },
    /// The command returns this error.
    CommandError(String),
    /// Nothing happens.
    Dropped,
}

/// A resolution as a mathematical value.
pub enum ResolutionView {
    Exit { status: int, diagnostic: Seq<char> },
    CommandError(Seq<char>),
    Dropped,
}

impl View for Resolution {
    type V = ResolutionView;

    open spec fn view(&self) -> ResolutionView {
        match self {
            Resolution::Exit { status, diagnostic } => ResolutionView::Exit {
                status: *status as int,
                diagnostic: diagnostic@,
            },
            Resolution::CommandError(message) => ResolutionView::CommandError(message@),
            Resolution::Dropped => ResolutionView::Dropped,
        }
    }
}

/// What becomes of a failure of a kind with a description.
pub open spec fn resolution_of(kind: FailureKind, message: Seq<char>) -> ResolutionView {
    match disposition_of(kind) {
        Disposition::Terminate => ResolutionView::Exit {
            status: EXIT_FATAL as int,
            diagnostic: message,
        },
        Disposition::ReturnToCaller => ResolutionView::CommandError(message),
        Disposition::Ignore => ResolutionView::Dropped,
    }
}

/// Says how a kind of failure is treated.
pub fn disposition(kind: FailureKind) -> (treatment: Disposition)
    ensures
        treatment == disposition_of(kind),
{
    match kind {
        FailureKind::PluginInit => Disposition::Terminate,
        FailureKind::WindowConstruction => Disposition::Terminate,
        FailureKind::MarkerAcquisition => Disposition::Terminate,
        FailureKind::Notification => Disposition::ReturnToCaller,
        FailureKind::OpenUrl => Disposition::ReturnToCaller,
        FailureKind::Focus => Disposition::Ignore,
        FailureKind::Restore => Disposition::Ignore,
    }
}

/// Turns a failure into what the shell does about it. The description is
/// handed on unchanged where it is handed on at all.
pub fn resolve(kind: FailureKind, message: String) -> (resolution: Resolution)
    ensures
        resolution@ == resolution_of(kind, message@),
{
    match disposition(kind) {
        Disposition::Terminate => Resolution::Exit { status: EXIT_FATAL, diagnostic: message },
        Disposition::ReturnToCaller => Resolution::CommandError(message),
        Disposition::Ignore => Resolution::Dropped,
    }
}

/// A fatal failure ends the process with a status other than zero.
pub proof fn lemma_fatal_status_is_nonzero(kind: FailureKind, message: Seq<char>)
    requires
        disposition_of(kind) == Disposition::Terminate,
    ensures
        resolution_of(kind, message) matches ResolutionView::Exit { status, diagnostic }
            && status != 0 && diagnostic == message,
{
}

} // verus!
