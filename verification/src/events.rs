//! The outbound event channel's vocabulary: fire-and-forget notifications
//! pushed from any component to the front-end.

use vstd::prelude::*;

verus! {

/// One outbound notification. The caller serializes it for the host's
/// channel; the library only decides which events are produced and in
/// what order.
pub enum AppEvent {
    /// Download progress of an in-flight update install.
    UpdateProgress { downloaded: u64, total: Option<u64> },
    /// An update install finished.
    UpdateInstalled,
    /// A newer version is available.
    UpdateAvailable { version: String },
    /// A global key press was observed; presence only, no key identity.
    GlobalKeypress,
    /// The front-end should switch to the named theme, verbatim.
    SetTheme(String),
    /// A persisted flag changed; the store already holds the new value.
    ToggleSetting { key: String, value: bool },
}

/// The mathematical shape of an [`AppEvent`]: strings as character
/// sequences.
pub enum EventView {
    UpdateProgress { downloaded: u64, total: Option<u64> },
    UpdateInstalled,
    UpdateAvailable { version: Seq<char> },
    GlobalKeypress,
    SetTheme(Seq<char>),
    ToggleSetting { key: Seq<char>, value: bool },
}

impl View for AppEvent {
    type V = EventView;

    open spec fn view(&self) -> EventView {
        match self {
            AppEvent::UpdateProgress { downloaded, total } => EventView::UpdateProgress {
                downloaded: *downloaded,
                total: *total,
            },
            AppEvent::UpdateInstalled => EventView::UpdateInstalled,
            AppEvent::UpdateAvailable { version } => EventView::UpdateAvailable {
                version: version@,
            },
            AppEvent::GlobalKeypress => EventView::GlobalKeypress,
            AppEvent::SetTheme(theme) => EventView::SetTheme(theme@),
            AppEvent::ToggleSetting { key, value } => EventView::ToggleSetting {
                key: key@,
                value: *value,
            },
        }
    }
}

} // verus!
