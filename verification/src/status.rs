//! The update-check status: the single authoritative outcome of the most
//! recent update check at any instant.

use vstd::prelude::*;

verus! {

/// The authoritative update-check outcome. A new status replaces the old
/// one wholesale; there is no queue or history.
pub enum UpdateStatus {
    /// A check is in flight.
    Checking,
    /// A check found a newer version, carried here.
    Available(String),
    /// A check found no newer version than the one carried here.
    Latest(String),
    /// A check or an install failed, or the updater could not start.
    Failed,
}

/// The mathematical value of an [`UpdateStatus`]: version payloads as
/// character sequences.
pub enum StatusView {
    Checking,
    Available(Seq<char>),
    Latest(Seq<char>),
    Failed,
}

impl View for UpdateStatus {
    type V = StatusView;

    open spec fn view(&self) -> StatusView {
        match self {
            UpdateStatus::Checking => StatusView::Checking,
            UpdateStatus::Available(v) => StatusView::Available(v@),
            UpdateStatus::Latest(v) => StatusView::Latest(v@),
            UpdateStatus::Failed => StatusView::Failed,
        }
    }
}

} // verus!
