//! The widget handles of the tray menu: plain and checkable menu items
//! whose text, checked-state and enabled-state stay mutable after the menu
//! is built once at startup.

use vstd::prelude::*;

verus! {

/// A plain menu item: mutable text and enabled-state.
pub struct ActionWidget {
    pub text: String,
    pub enabled: bool,
}

/// The mathematical value of an [`ActionWidget`].
#[verifier::ext_equal]
pub struct ActionWidgetView {
    pub text: Seq<char>,
    pub enabled: bool,
}

impl View for ActionWidget {
    type V = ActionWidgetView;

    open spec fn view(&self) -> ActionWidgetView {
        ActionWidgetView { text: self.text@, enabled: self.enabled }
    }
}

impl ActionWidget {
    /// Builds a plain item with the given label.
    pub fn new(label: &str, enabled: bool) -> (widget: ActionWidget)
        ensures
            widget@.text == label@,
            widget@.enabled == enabled,
    {
        ActionWidget { text: String::from_str(label), enabled }
    }

    /// Replaces the item's text.
    pub fn set_text(&mut self, text: String)
        ensures
            final(self)@.text == text@,
            final(self)@.enabled == old(self)@.enabled,
    {
        self.text = text;
    }

    /// Enables or disables the item.
    pub fn set_enabled(&mut self, enabled: bool)
        ensures
            final(self)@.text == old(self)@.text,
            final(self)@.enabled == enabled,
    {
        self.enabled = enabled;
    }
}

/// A checkable menu item: mutable text, checked-state and enabled-state.
pub struct ToggleWidget {
    pub text: String,
    pub checked: bool,
    pub enabled: bool,
}

/// The mathematical value of a [`ToggleWidget`].
#[verifier::ext_equal]
pub struct ToggleWidgetView {
    pub text: Seq<char>,
    pub checked: bool,
    pub enabled: bool,
}

impl View for ToggleWidget {
    type V = ToggleWidgetView;

    open spec fn view(&self) -> ToggleWidgetView {
        ToggleWidgetView { text: self.text@, checked: self.checked, enabled: self.enabled }
    }
}

impl ToggleWidget {
    /// Builds a checkable item with the given label and initial checked-state.
    pub fn new(label: &str, checked: bool) -> (widget: ToggleWidget)
        ensures
            widget@.text == label@,
            widget@.checked == checked,
            widget@.enabled,
    {
        ToggleWidget { text: String::from_str(label), checked, enabled: true }
    }

    /// Replaces the item's text.
    pub fn set_text(&mut self, text: String)
        ensures
            final(self)@.text == text@,
            final(self)@.checked == old(self)@.checked,
            final(self)@.enabled == old(self)@.enabled,
    {
        self.text = text;
    }

    /// Checks or unchecks the item.
    pub fn set_checked(&mut self, checked: bool)
        ensures
            final(self)@.text == old(self)@.text,
            final(self)@.checked == checked,
            final(self)@.enabled == old(self)@.enabled,
    {
        self.checked = checked;
    }

    /// Enables or disables the item.
    pub fn set_enabled(&mut self, enabled: bool)
        ensures
            final(self)@.text == old(self)@.text,
            final(self)@.checked == old(self)@.checked,
            final(self)@.enabled == enabled,
    {
        self.enabled = enabled;
    }
}

} // verus!
