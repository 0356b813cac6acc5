//! The tray state: the process-wide record of the current language, the
//! current update status and the static version string, together with the
//! widget handles it re-renders whenever either changes.
//!
//! Every mutation immediately re-renders the widgets whose text depends on
//! the changed field, so the displayed text is always a function of the
//! stored state. The host keeps the one `TrayState` behind a mutex and
//! calls the commands from any thread; each command is one atomic
//! mutate-and-render step under that lock.

use vstd::prelude::*;

use crate::locale::Language;
use crate::locale::spec_language_of;
use crate::render::render_action_text;
use crate::render::render_status_text;
use crate::render::render_version_label;
use crate::render::spec_action_text;
use crate::render::spec_status_text;
use crate::render::spec_version_label;
use crate::status::StatusView;
use crate::status::UpdateStatus;
use crate::widgets::ActionWidget;
use crate::widgets::ActionWidgetView;
use crate::widgets::ToggleWidget;
use crate::widgets::ToggleWidgetView;

verus! {

/// The full tray state: widget handles, current language, current update
/// status and the immutable version string.
pub struct TrayState {
    pub show_window: ToggleWidget,
    pub session_history: ActionWidget,
    pub usage: ActionWidget,
    pub autostart: ToggleWidget,
    pub activate_license: ActionWidget,
    pub language_menu: ActionWidget,
    pub lang_ko: ToggleWidget,
    pub lang_en: ToggleWidget,
    pub update_status: ActionWidget,
    pub version_item: ActionWidget,
    pub check_update: ActionWidget,
    pub quit: ActionWidget,
    pub language: Language,
    pub status: UpdateStatus,
    pub version: String,
}

/// The mathematical value of a [`TrayState`].
#[verifier::ext_equal]
pub struct TrayView {
    pub show_window: ToggleWidgetView,
    pub session_history: ActionWidgetView,
    pub usage: ActionWidgetView,
    pub autostart: ToggleWidgetView,
    pub activate_license: ActionWidgetView,
    pub language_menu: ActionWidgetView,
    pub lang_ko: ToggleWidgetView,
    pub lang_en: ToggleWidgetView,
    pub update_status: ActionWidgetView,
    pub version_item: ActionWidgetView,
    pub check_update: ActionWidgetView,
    pub quit: ActionWidgetView,
    pub language: Language,
    pub status: StatusView,
    pub version: Seq<char>,
}

impl View for TrayState {
    type V = TrayView;

    open spec fn view(&self) -> TrayView {
        TrayView {
            show_window: self.show_window@,
            session_history: self.session_history@,
            usage: self.usage@,
            autostart: self.autostart@,
            activate_license: self.activate_license@,
            language_menu: self.language_menu@,
            lang_ko: self.lang_ko@,
            lang_en: self.lang_en@,
            update_status: self.update_status@,
            version_item: self.version_item@,
            check_update: self.check_update@,
            quit: self.quit@,
            language: self.language,
            status: self.status@,
            version: self.version@,
        }
    }
}

/// The tray state as built at startup: English labels, the show-window
/// toggle checked, the autostart toggle mirroring the host's autostart
/// registration, and the optimistic `Latest` status before the first real
/// check completes.
pub open spec fn spec_initial_tray(version: Seq<char>, autostart_enabled: bool) -> TrayView {
    TrayView {
        show_window: ToggleWidgetView { text: "Show Window"@, checked: true, enabled: true },
        session_history: ActionWidgetView { text: "Session History"@, enabled: true },
        usage: ActionWidgetView { text: "Usage"@, enabled: true },
        autostart: ToggleWidgetView {
            text: "Start at Login"@,
            checked: autostart_enabled,
            enabled: true,
        },
        activate_license: ActionWidgetView { text: "Activate License"@, enabled: true },
        language_menu: ActionWidgetView { text: "Language"@, enabled: true },
        lang_ko: ToggleWidgetView { text: "한국어"@, checked: false, enabled: true },
        lang_en: ToggleWidgetView { text: "English"@, checked: false, enabled: true },
        update_status: ActionWidgetView { text: "Update status"@, enabled: false },
        version_item: ActionWidgetView {
            text: spec_version_label(Language::En, version),
            enabled: false,
        },
        check_update: ActionWidgetView { text: "Check for Updates"@, enabled: true },
        quit: ActionWidgetView { text: "Quit"@, enabled: true },
        language: Language::En,
        status: StatusView::Latest(version),
        version: version,
    }
}

/// The state after a language change: the language is stored, the matching
/// language toggle is checked and its sibling unchecked, and the version
/// label, status label and action label are re-rendered in the new
/// language from the stored state, without re-querying the updater.
pub open spec fn spec_set_language(s: TrayView, lang: Language) -> TrayView {
    TrayView {
        language: lang,
        lang_ko: ToggleWidgetView { checked: lang is Ko, ..s.lang_ko },
        lang_en: ToggleWidgetView { checked: lang is En, ..s.lang_en },
        version_item: ActionWidgetView {
            text: spec_version_label(lang, s.version),
            ..s.version_item
        },
        update_status: ActionWidgetView {
            text: spec_status_text(lang, s.status),
            ..s.update_status
        },
        check_update: ActionWidgetView { text: spec_action_text(lang, s.status), ..s.check_update },
        ..s
    }
}

/// The state after an update-status change: the status is stored wholesale
/// and the status label and action label are re-rendered for it in the
/// current language.
pub open spec fn spec_set_status(s: TrayView, status: StatusView) -> TrayView {
    TrayView {
        status: status,
        update_status: ActionWidgetView {
            text: spec_status_text(s.language, status),
            ..s.update_status
        },
        check_update: ActionWidgetView {
            text: spec_action_text(s.language, status),
            ..s.check_update
        },
        ..s
    }
}

/// A full translation bundle for the non-status, non-version widgets,
/// pushed by the host UI layer.
pub struct TrayLabels {
    pub show_window: String,
    pub session_history: String,
    pub usage: String,
    pub start_at_login: String,
    pub activate_license: String,
    pub language: String,
    pub check_for_updates: String,
    pub quit: String,
}

/// The mathematical value of a [`TrayLabels`].
#[verifier::ext_equal]
pub struct TrayLabelsView {
    pub show_window: Seq<char>,
    pub session_history: Seq<char>,
    pub usage: Seq<char>,
    pub start_at_login: Seq<char>,
    pub activate_license: Seq<char>,
    pub language: Seq<char>,
    pub check_for_updates: Seq<char>,
    pub quit: Seq<char>,
}

impl View for TrayLabels {
    type V = TrayLabelsView;

    open spec fn view(&self) -> TrayLabelsView {
        TrayLabelsView {
            show_window: self.show_window@,
            session_history: self.session_history@,
            usage: self.usage@,
            start_at_login: self.start_at_login@,
            activate_license: self.activate_license@,
            language: self.language@,
            check_for_updates: self.check_for_updates@,
            quit: self.quit@,
        }
    }
}

/// The state after a bulk label replacement: every non-status, non-version
/// widget takes its text from the bundle; language, status and the
/// status/version labels are untouched.
pub open spec fn spec_update_labels(s: TrayView, labels: TrayLabelsView) -> TrayView {
    TrayView {
        show_window: ToggleWidgetView { text: labels.show_window, ..s.show_window },
        session_history: ActionWidgetView { text: labels.session_history, ..s.session_history },
        usage: ActionWidgetView { text: labels.usage, ..s.usage },
        autostart: ToggleWidgetView { text: labels.start_at_login, ..s.autostart },
        activate_license: ActionWidgetView {
            text: labels.activate_license,
            ..s.activate_license
        },
        language_menu: ActionWidgetView { text: labels.language, ..s.language_menu },
        check_update: ActionWidgetView { text: labels.check_for_updates, ..s.check_update },
        quit: ActionWidgetView { text: labels.quit, ..s.quit },
        ..s
    }
}

/// The state after an entitlement change: the activate-license item takes
/// the given text and is disabled exactly when the user holds a paid
/// entitlement.
pub open spec fn spec_sync_pro(s: TrayView, is_pro: bool, label: Seq<char>) -> TrayView {
    TrayView {
        activate_license: ActionWidgetView { text: label, enabled: !is_pro },
        ..s
    }
}

impl TrayState {
    /// Builds the tray state as the menu registry leaves it at startup.
    pub fn new(version: String, autostart_enabled: bool) -> (state: TrayState)
        ensures
            state@ == spec_initial_tray(version@, autostart_enabled),
    {
        let version_item = ActionWidget {
            text: render_version_label(Language::En, version.as_str()),
            enabled: false,
        };
        let status = UpdateStatus::Latest(version.clone());
        TrayState {
            show_window: ToggleWidget::new("Show Window", true),
            session_history: ActionWidget::new("Session History", true),
            usage: ActionWidget::new("Usage", true),
            autostart: ToggleWidget::new("Start at Login", autostart_enabled),
            activate_license: ActionWidget::new("Activate License", true),
            language_menu: ActionWidget::new("Language", true),
            lang_ko: ToggleWidget::new("한국어", false),
            lang_en: ToggleWidget::new("English", false),
            update_status: ActionWidget::new("Update status", false),
            version_item,
            check_update: ActionWidget::new("Check for Updates", true),
            quit: ActionWidget::new("Quit", true),
            language: Language::En,
            status,
            version,
        }
    }

    /// Sets the current language and re-renders everything that depends on
    /// it: the language toggles (exactly the matching one checked), the
    /// version label, and — from the stored status, without re-querying the
    /// updater — the status and action labels.
    pub fn sync_language_tray(&mut self, lang: &str)
        requires
            lang@ == "en"@ || lang@ == "ko"@,
        ensures
            final(self)@ == spec_set_language(old(self)@, spec_language_of(lang@)),
    {
        let language = Language::from_code(lang);
        self.lang_ko.set_checked(language == Language::Ko);
        self.lang_en.set_checked(language == Language::En);
        self.language = language;
        let version_label = render_version_label(language, self.version.as_str());
        self.version_item.set_text(version_label);
        let status_text = render_status_text(language, &self.status);
        self.update_status.set_text(status_text);
        let action_text = render_action_text(language, &self.status);
        self.check_update.set_text(action_text);
    }

    /// Stores a new update status and re-renders the status and action
    /// labels for it in the current language.
    pub fn apply_update_state(&mut self, status: UpdateStatus)
        ensures
            final(self)@ == spec_set_status(old(self)@, status@),
    {
        let status_text = render_status_text(self.language, &status);
        self.update_status.set_text(status_text);
        let action_text = render_action_text(self.language, &status);
        self.check_update.set_text(action_text);
        self.status = status;
    }

    /// Replaces the text of every non-status, non-version widget from a
    /// translation bundle; neither the language nor the status changes.
    pub fn update_tray_menu(&mut self, labels: TrayLabels)
        ensures
            final(self)@ == spec_update_labels(old(self)@, labels@),
    {
        let TrayLabels {
            show_window,
            session_history,
            usage,
            start_at_login,
            activate_license,
            language,
            check_for_updates,
            quit,
        } = labels;
        self.show_window.set_text(show_window);
        self.session_history.set_text(session_history);
        self.usage.set_text(usage);
        self.autostart.set_text(start_at_login);
        self.activate_license.set_text(activate_license);
        self.language_menu.set_text(language);
        self.check_update.set_text(check_for_updates);
        self.quit.set_text(quit);
    }

    /// Records the user's entitlement: replaces the activate-license text
    /// and disables the item exactly when the entitlement is held.
    /// Idempotent: a repeat with the same arguments changes nothing more.
    pub fn sync_pro_status(&mut self, is_pro: bool, label: String)
        ensures
            final(self)@ == spec_sync_pro(old(self)@, is_pro, label@),
    {
        self.activate_license.set_text(label);
        self.activate_license.set_enabled(!is_pro);
    }
}

/// Mutual exclusion of the language toggles: whatever the prior state, a
/// language change checks exactly the toggle of the language just set and
/// unchecks its sibling. Since the toggles after a change do not depend on
/// the prior state, after any sequence of changes exactly one toggle is
/// checked — the one of the most recent argument.
pub proof fn lemma_language_toggle_exclusive(s: TrayView, lang: Language)
    ensures
        spec_set_language(s, lang).lang_ko.checked <==> lang is Ko,
        spec_set_language(s, lang).lang_en.checked <==> lang is En,
        spec_set_language(s, lang).lang_ko.checked != spec_set_language(s, lang).lang_en.checked,
{
}

/// Idempotence of status changes: setting the same update status twice in
/// a row leaves exactly the state — stored status and rendered labels —
/// that setting it once leaves.
pub proof fn lemma_set_status_idempotent(s: TrayView, status: StatusView)
    ensures
        spec_set_status(spec_set_status(s, status), status) == spec_set_status(s, status),
{
    assert(spec_set_status(spec_set_status(s, status), status) =~= spec_set_status(s, status));
}

} // verus!
