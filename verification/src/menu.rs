//! The identity surface of the tray menu: stable widget identifiers, the
//! fixed menu layout, and the routing of click events to their handlers.

use vstd::prelude::*;

use crate::locale::Language;

verus! {

/// The stable identity of each addressable tray-menu widget, used to route
/// click events back to a handler for the lifetime of the process.
#[derive(Clone, Copy, PartialEq, Eq, Structural, Debug)]
pub enum WidgetId {
    ShowWindow,
    SessionHistory,
    Usage,
    StartAtLogin,
    ActivateLicense,
    LanguageMenu,
    LangKo,
    LangEn,
    UpdateStatusLabel,
    VersionLabel,
    CheckForUpdates,
    Quit,
}

/// One entry of the dropdown menu, in display order.
#[derive(Clone, Copy, PartialEq, Eq, Structural, Debug)]
pub enum MenuEntry {
    /// A clickable or read-only item.
    Item(WidgetId),
    /// A submenu header; its children are listed separately.
    Submenu(WidgetId),
    /// A visual separator.
    Separator,
}

/// The fixed menu layout, in the order the widgets are built.
pub open spec fn spec_menu_layout() -> Seq<MenuEntry> {
    seq![
        MenuEntry::Item(WidgetId::ShowWindow),
        MenuEntry::Item(WidgetId::SessionHistory),
        MenuEntry::Item(WidgetId::Usage),
        MenuEntry::Separator,
        MenuEntry::Item(WidgetId::StartAtLogin),
        MenuEntry::Item(WidgetId::ActivateLicense),
        MenuEntry::Submenu(WidgetId::LanguageMenu),
        MenuEntry::Separator,
        MenuEntry::Item(WidgetId::UpdateStatusLabel),
        MenuEntry::Item(WidgetId::VersionLabel),
        MenuEntry::Item(WidgetId::CheckForUpdates),
        MenuEntry::Separator,
        MenuEntry::Item(WidgetId::Quit),
    ]
}

/// The menu entries in the order they are shown.
pub fn menu_layout() -> (entries: Vec<MenuEntry>)
    ensures
        entries@ == spec_menu_layout(),
{
    let mut entries: Vec<MenuEntry> = Vec::new();
    entries.push(MenuEntry::Item(WidgetId::ShowWindow));
    entries.push(MenuEntry::Item(WidgetId::SessionHistory));
    entries.push(MenuEntry::Item(WidgetId::Usage));
    entries.push(MenuEntry::Separator);
    entries.push(MenuEntry::Item(WidgetId::StartAtLogin));
    entries.push(MenuEntry::Item(WidgetId::ActivateLicense));
    entries.push(MenuEntry::Submenu(WidgetId::LanguageMenu));
    entries.push(MenuEntry::Separator);
    entries.push(MenuEntry::Item(WidgetId::UpdateStatusLabel));
    entries.push(MenuEntry::Item(WidgetId::VersionLabel));
    entries.push(MenuEntry::Item(WidgetId::CheckForUpdates));
    entries.push(MenuEntry::Separator);
    entries.push(MenuEntry::Item(WidgetId::Quit));
    proof {
        assert(entries@ =~= spec_menu_layout());
    }
    entries
}

/// The children of the language submenu: one mutually exclusive toggle per
/// supported language.
pub fn language_menu_items() -> (items: Vec<WidgetId>)
    ensures
        items@ == seq![WidgetId::LangKo, WidgetId::LangEn],
{
    let mut items: Vec<WidgetId> = Vec::new();
    items.push(WidgetId::LangKo);
    items.push(WidgetId::LangEn);
    proof {
        assert(items@ =~= seq![WidgetId::LangKo, WidgetId::LangEn]);
    }
    items
}

/// An event the tray emits to the host UI layer, which acts on it (shows a
/// modal, switches the frontend locale).
#[derive(Clone, Copy, PartialEq, Eq, Structural, Debug)]
pub enum UiEvent {
    OpenSessionHistory,
    OpenLicenseInput,
    OpenUsage,
    ChangeLanguage(Language),
}

/// The handler a menu click routes to.
#[derive(Clone, Copy, PartialEq, Eq, Structural, Debug)]
pub enum ClickAction {
    /// Show the main window if hidden, hide it if visible.
    ToggleMainWindow,
    /// Show and focus the main window, then emit the event.
    ShowWindowAndEmit(UiEvent),
    /// Flip autostart registration and the start-at-login check mark.
    ToggleAutostart,
    /// Emit a language-change event and move the language check mark.
    SelectLanguage(Language),
    /// Start an update-check run with the manual trigger.
    StartUpdateCheck,
    /// Exit the application.
    QuitApp,
    /// Read-only widgets: nothing to do.
    NoAction,
}

/// The click-routing table: the handler of each widget identity.
pub open spec fn spec_click_action(id: WidgetId) -> ClickAction {
    match id {
        WidgetId::ShowWindow => ClickAction::ToggleMainWindow,
        WidgetId::SessionHistory => ClickAction::ShowWindowAndEmit(UiEvent::OpenSessionHistory),
        WidgetId::Usage => ClickAction::ShowWindowAndEmit(UiEvent::OpenUsage),
        WidgetId::StartAtLogin => ClickAction::ToggleAutostart,
        WidgetId::ActivateLicense => ClickAction::ShowWindowAndEmit(UiEvent::OpenLicenseInput),
        WidgetId::LanguageMenu => ClickAction::NoAction,
        WidgetId::LangKo => ClickAction::SelectLanguage(Language::Ko),
        WidgetId::LangEn => ClickAction::SelectLanguage(Language::En),
        WidgetId::UpdateStatusLabel => ClickAction::NoAction,
        WidgetId::VersionLabel => ClickAction::NoAction,
        WidgetId::CheckForUpdates => ClickAction::StartUpdateCheck,
        WidgetId::Quit => ClickAction::QuitApp,
    }
}

/// Routes a menu click to its handler.
pub fn click_action(id: WidgetId) -> (action: ClickAction)
    ensures
        action == spec_click_action(id),
{
    match id {
        WidgetId::ShowWindow => ClickAction::ToggleMainWindow,
        WidgetId::SessionHistory => ClickAction::ShowWindowAndEmit(UiEvent::OpenSessionHistory),
        WidgetId::Usage => ClickAction::ShowWindowAndEmit(UiEvent::OpenUsage),
        WidgetId::StartAtLogin => ClickAction::ToggleAutostart,
        WidgetId::ActivateLicense => ClickAction::ShowWindowAndEmit(UiEvent::OpenLicenseInput),
        WidgetId::LanguageMenu => ClickAction::NoAction,
        WidgetId::LangKo => ClickAction::SelectLanguage(Language::Ko),
        WidgetId::LangEn => ClickAction::SelectLanguage(Language::En),
        WidgetId::UpdateStatusLabel => ClickAction::NoAction,
        WidgetId::VersionLabel => ClickAction::NoAction,
        WidgetId::CheckForUpdates => ClickAction::StartUpdateCheck,
        WidgetId::Quit => ClickAction::QuitApp,
    }
}

/// The name under which an event reaches the host UI layer.
pub open spec fn spec_event_name(event: UiEvent) -> Seq<char> {
    match event {
        UiEvent::OpenSessionHistory => "open-session-history"@,
        UiEvent::OpenLicenseInput => "open-license-input"@,
        UiEvent::OpenUsage => "open-usage"@,
        UiEvent::ChangeLanguage(_) => "change-language"@,
    }
}

/// The name under which an event reaches the host UI layer. A
/// language-change event additionally carries the language code as its
/// payload.
pub fn event_name(event: &UiEvent) -> (name: &'static str)
    ensures
        name@ == spec_event_name(*event),
{
    match event {
        UiEvent::OpenSessionHistory => "open-session-history",
        UiEvent::OpenLicenseInput => "open-license-input",
        UiEvent::OpenUsage => "open-usage",
        UiEvent::ChangeLanguage(_) => "change-language",
    }
}

} // verus!
