//! The delayed update probe and the progress-streaming install session.

use vstd::prelude::*;
use crate::events::{AppEvent, EventView};

verus! {

/// Seconds the one-shot update probe waits after startup before checking.
pub const UPDATE_CHECK_DELAY_SECS: u64 = 5;

/// Decides what the one-shot update probe emits. `found` is the version the
/// host's check returned, or `None` on failure or "no update". An available
/// update yields exactly one availability notification carrying the version
/// verbatim; anything else yields nothing — no retry, no error surfaced,
/// and never a progress event before an install is explicitly triggered.
pub fn check_outcome(found: Option<String>) -> (events: Vec<AppEvent>)
    ensures
        found matches Some(version) ==> events@.len() == 1 && events@[0]@
            == (EventView::UpdateAvailable { version: version@ }),
        found is None ==> events@.len() == 0,
{
    let mut events: Vec<AppEvent> = Vec::new();
    if let Some(version) = found {
        events.push(AppEvent::UpdateAvailable { version });
    }
    events
}

/// One in-flight download-and-install operation: the version being
/// fetched, the bytes received so far, and the total the host announced
/// (unknown until the first chunk reports it).
pub struct UpdateSession {
    pub version: String,
    pub downloaded: u64,
    pub total: Option<u64>,
}

impl UpdateSession {
    /// A session starts with nothing downloaded and no known total.
    pub fn new(version: String) -> (s: Self)
        ensures
            s.version@ == version@,
            s.downloaded == 0,
            s.total is None,
    {
        UpdateSession { version, downloaded: 0, total: None }
    }

    /// Accounts one received chunk and yields the progress notification to
    /// emit: the running total grows monotonically by exactly the chunk
    /// length, and the event reports the accumulated count, never the raw
    /// chunk. The bound on the sum is a machine limit the caller checks.
    pub fn on_chunk(&mut self, chunk_len: u64, total: Option<u64>) -> (e: AppEvent)
        requires
            old(self).downloaded + chunk_len <= u64::MAX,
        ensures
            final(self).downloaded == old(self).downloaded + chunk_len,
            final(self).downloaded >= old(self).downloaded,
            final(self).total == total,
            final(self).version@ == old(self).version@,
            e@ == (EventView::UpdateProgress {
                downloaded: (old(self).downloaded + chunk_len) as u64,
                total,
            }),
    {
        self.downloaded = self.downloaded + chunk_len;
        self.total = total;
        AppEvent::UpdateProgress { downloaded: self.downloaded, total }
    }

    /// The install completed: the session is discarded and the completion
    /// notification emitted. Carries no payload.
    pub fn finished(self) -> (e: AppEvent)
        ensures
            e@ == EventView::UpdateInstalled,
    {
        AppEvent::UpdateInstalled
    }
}

} // verus!
