//! Core of a menu-bar application's tray: a locale-aware tray-menu state
//! machine and the update-check orchestration that drives it.

pub mod locale;
pub mod menu;
pub mod render;
pub mod status;
pub mod tray;
pub mod update_flow;
pub mod widgets;

pub use locale::Language;
pub use locale::UpdateLocale;
pub use locale::get_update_locale;
pub use menu::ClickAction;
pub use menu::MenuEntry;
pub use menu::UiEvent;
pub use menu::WidgetId;
pub use menu::click_action;
pub use menu::event_name;
pub use menu::language_menu_items;
pub use menu::menu_layout;
pub use render::render_template;
pub use render::render_status_text;
pub use render::render_action_text;
pub use render::render_version_label;
pub use status::UpdateStatus;
pub use tray::TrayLabels;
pub use tray::TrayState;
pub use update_flow::CheckOutcome;
pub use update_flow::CheckTrigger;
pub use update_flow::DialogKind;
pub use update_flow::DialogRequest;
pub use update_flow::InstallOutcome;
pub use update_flow::on_check_outcome;
pub use update_flow::on_install_outcome;
pub use widgets::ActionWidget;
pub use widgets::ToggleWidget;
