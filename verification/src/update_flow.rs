//! The update orchestrator's decisions: how each outcome of the updater
//! capability moves the update status, which dialog the host should
//! present, and when a restart is requested.
//!
//! A run is driven by the host: it commits `Checking`, performs the
//! network call, and feeds the outcome back in here. Every status
//! transition funnels through [`TrayState::apply_update_state`], the same
//! path manual commands use, so rendering has exactly one entry point.
//! Overlapping runs are tolerated: each one only replaces the shared
//! status, and the write that lands last wins.

use vstd::prelude::*;

use crate::locale::Language;
use crate::locale::spec_locale;
use crate::render::render_template;
use crate::render::subst_version;
use crate::status::StatusView;
use crate::status::UpdateStatus;
use crate::tray::TrayState;
use crate::tray::spec_set_status;

verus! {

/// What started an update-check run. The automatic startup check is
/// silent-but-visible: it only moves the passive status text. A manual,
/// user-clicked check is conversational: every outcome is answered with a
/// dialog.
#[derive(Clone, Copy, PartialEq, Eq, Structural, Debug)]
pub enum CheckTrigger {
    Automatic,
    Manual,
}

/// The outcome of asking the updater capability for a newer version.
pub enum CheckOutcome {
    /// A newer version exists; carries its version string.
    UpdateFound(String),
    /// The running version is the latest.
    UpToDate,
    /// The check itself failed (network or transport).
    CheckFailed,
    /// The updater capability could not be initialized.
    UpdaterUnavailable,
}

/// The mathematical value of a [`CheckOutcome`].
pub enum CheckOutcomeView {
    UpdateFound(Seq<char>),
    UpToDate,
    CheckFailed,
    UpdaterUnavailable,
}

impl View for CheckOutcome {
    type V = CheckOutcomeView;

    open spec fn view(&self) -> CheckOutcomeView {
        match self {
            CheckOutcome::UpdateFound(v) => CheckOutcomeView::UpdateFound(v@),
            CheckOutcome::UpToDate => CheckOutcomeView::UpToDate,
            CheckOutcome::CheckFailed => CheckOutcomeView::CheckFailed,
            CheckOutcome::UpdaterUnavailable => CheckOutcomeView::UpdaterUnavailable,
        }
    }
}

/// The outcome of downloading and installing an available update.
#[derive(Clone, Copy, PartialEq, Eq, Structural, Debug)]
pub enum InstallOutcome {
    Installed,
    InstallFailed,
}

/// How a requested dialog presents itself.
#[derive(Clone, Copy, PartialEq, Eq, Structural, Debug)]
pub enum DialogKind {
    /// A plain acknowledgement.
    Info,
    /// An error acknowledgement.
    Error,
    /// A blocking yes/no choice.
    Question,
}

/// A blocking dialog the host should present to the user.
pub struct DialogRequest {
    pub kind: DialogKind,
    /// The confirm and dismiss button labels of a [`DialogKind::Question`];
    /// `None` leaves the host's default acknowledgement button.
    pub buttons: Option<(String, String)>,
    pub title: String,
    pub message: String,
}

/// The mathematical value of a [`DialogRequest`].
#[verifier::ext_equal]
pub struct DialogRequestView {
    pub kind: DialogKind,
    pub buttons: Option<(Seq<char>, Seq<char>)>,
    pub title: Seq<char>,
    pub message: Seq<char>,
}

impl View for DialogRequest {
    type V = DialogRequestView;

    open spec fn view(&self) -> DialogRequestView {
        DialogRequestView {
            kind: self.kind,
            buttons: match self.buttons {
                Some((confirm, dismiss)) => Some((confirm@, dismiss@)),
                None => None,
            },
            title: self.title@,
            message: self.message@,
        }
    }
}

/// The status a check outcome moves the state machine to: a found update
/// becomes `Available`, an up-to-date answer becomes `Latest` of the
/// running version, and both failure modes become `Failed`.
pub open spec fn spec_status_after_check(outcome: CheckOutcomeView, version: Seq<char>) -> StatusView {
    match outcome {
        CheckOutcomeView::UpdateFound(v) => StatusView::Available(v),
        CheckOutcomeView::UpToDate => StatusView::Latest(version),
        CheckOutcomeView::CheckFailed => StatusView::Failed,
        CheckOutcomeView::UpdaterUnavailable => StatusView::Failed,
    }
}

/// The dialog a manual check answers each outcome with: a confirm dialog
/// with install/later buttons for a found update, an informational prompt
/// when up to date, and an error prompt for either failure mode.
pub open spec fn spec_check_dialog(
    lang: Language,
    outcome: CheckOutcomeView,
    version: Seq<char>,
) -> DialogRequestView {
    match outcome {
        CheckOutcomeView::UpdateFound(v) => DialogRequestView {
            kind: DialogKind::Question,
            buttons: Some((spec_locale(lang).button_install, spec_locale(lang).button_later)),
            title: spec_locale(lang).title_available,
            message: subst_version(spec_locale(lang).message_available, v),
        },
        CheckOutcomeView::UpToDate => DialogRequestView {
            kind: DialogKind::Info,
            buttons: None,
            title: spec_locale(lang).title_no_update,
            message: subst_version(spec_locale(lang).message_no_update, version),
        },
        CheckOutcomeView::CheckFailed => DialogRequestView {
            kind: DialogKind::Error,
            buttons: None,
            title: spec_locale(lang).title_error_check,
            message: spec_locale(lang).message_error_check,
        },
        CheckOutcomeView::UpdaterUnavailable => DialogRequestView {
            kind: DialogKind::Error,
            buttons: None,
            title: spec_locale(lang).title_init_error,
            message: spec_locale(lang).message_init_error,
        },
    }
}

/// The dialog that answers a download-and-install outcome: a ready prompt
/// on success, an error prompt on failure.
pub open spec fn spec_install_dialog(lang: Language, outcome: InstallOutcome) -> DialogRequestView {
    match outcome {
        InstallOutcome::Installed => DialogRequestView {
            kind: DialogKind::Info,
            buttons: None,
            title: spec_locale(lang).title_ready,
            message: spec_locale(lang).message_ready,
        },
        InstallOutcome::InstallFailed => DialogRequestView {
            kind: DialogKind::Error,
            buttons: None,
            title: spec_locale(lang).title_error_download,
            message: spec_locale(lang).message_error_download,
        },
    }
}

/// Applies a check outcome: stores the resulting status (re-rendering the
/// tray), and returns the dialog to present — exactly one for a manual
/// trigger, never one for the automatic background trigger.
pub fn on_check_outcome(state: &mut TrayState, trigger: CheckTrigger, outcome: CheckOutcome) -> (dialog:
    Option<DialogRequest>)
    ensures
        final(state)@ == spec_set_status(
            old(state)@,
            spec_status_after_check(outcome@, old(state)@.version),
        ),
        dialog is Some <==> trigger is Manual,
        trigger is Manual ==> (dialog matches Some(d) && d@ == spec_check_dialog(
            old(state)@.language,
            outcome@,
            old(state)@.version,
        )),
{
    let status = match &outcome {
        CheckOutcome::UpdateFound(v) => UpdateStatus::Available(v.clone()),
        CheckOutcome::UpToDate => UpdateStatus::Latest(state.version.clone()),
        CheckOutcome::CheckFailed => UpdateStatus::Failed,
        CheckOutcome::UpdaterUnavailable => UpdateStatus::Failed,
    };
    match trigger {
        CheckTrigger::Automatic => {
            state.apply_update_state(status);
            None
        },
        CheckTrigger::Manual => {
            let locale = state.language.locale();
            let dialog = match &outcome {
                CheckOutcome::UpdateFound(v) => DialogRequest {
                    kind: DialogKind::Question,
                    buttons: Some(
                        (
                            String::from_str(locale.button_install),
                            String::from_str(locale.button_later),
                        ),
                    ),
                    title: String::from_str(locale.title_available),
                    message: render_template(locale.message_available, v.as_str()),
                },
                CheckOutcome::UpToDate => DialogRequest {
                    kind: DialogKind::Info,
                    buttons: None,
                    title: String::from_str(locale.title_no_update),
                    message: render_template(locale.message_no_update, state.version.as_str()),
                },
                CheckOutcome::CheckFailed => DialogRequest {
                    kind: DialogKind::Error,
                    buttons: None,
                    title: String::from_str(locale.title_error_check),
                    message: String::from_str(locale.message_error_check),
                },
                CheckOutcome::UpdaterUnavailable => DialogRequest {
                    kind: DialogKind::Error,
                    buttons: None,
                    title: String::from_str(locale.title_init_error),
                    message: String::from_str(locale.message_init_error),
                },
            };
            state.apply_update_state(status);
            Some(dialog)
        },
    }
}

/// Applies a download-and-install outcome of a manual run: on failure the
/// status becomes `Failed`; on success the state is left as it stands,
/// since the application is about to restart. Returns the dialog to
/// present and whether a restart is to be requested — exactly on success.
pub fn on_install_outcome(state: &mut TrayState, outcome: InstallOutcome) -> (result: (
    DialogRequest,
    bool,
))
    ensures
        outcome is Installed ==> final(state)@ == old(state)@,
        outcome is InstallFailed ==> final(state)@ == spec_set_status(
            old(state)@,
            StatusView::Failed,
        ),
        result.0@ == spec_install_dialog(old(state)@.language, outcome),
        result.1 == (outcome is Installed),
{
    let locale = state.language.locale();
    match outcome {
        InstallOutcome::Installed => {
            let dialog = DialogRequest {
                kind: DialogKind::Info,
                buttons: None,
                title: String::from_str(locale.title_ready),
                message: String::from_str(locale.message_ready),
            };
            (dialog, true)
        },
        InstallOutcome::InstallFailed => {
            state.apply_update_state(UpdateStatus::Failed);
            let dialog = DialogRequest {
                kind: DialogKind::Error,
                buttons: None,
                title: String::from_str(locale.title_error_download),
                message: String::from_str(locale.message_error_download),
            };
            (dialog, false)
        },
    }
}

} // verus!
