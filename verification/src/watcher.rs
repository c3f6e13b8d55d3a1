//! The supervised global key-press watcher: a retry-forever installation
//! loop and the per-event notification decision.

use vstd::prelude::*;
use crate::events::{AppEvent, EventView};

verus! {

/// Seconds the supervisor backs off after a failed hook installation
/// before retrying.
pub const RETRY_BACKOFF_SECS: u64 = 1;

/// What kind of input event the installed hook observed. The host's event
/// type is reduced to this before the library decides anything.
#[derive(Clone, Copy, PartialEq, Eq, Structural, Debug)]
pub enum InputKind {
    /// A key was pressed.
    KeyPress,
    /// Anything else the hook reports (key release, pointer activity, ...).
    OtherInput,
}

/// What the supervisor asks its driver to do after one installation
/// attempt.
#[derive(Clone, Copy, PartialEq, Eq, Structural, Debug)]
pub enum HookStep {
    /// Installation failed: sleep the backoff interval and attempt again.
    Retry,
    /// Installation succeeded: the hook is active, stop attempting.
    Activated,
}

/// The key-hook supervisor's state: whether an installed hook is active.
/// The driver loop attempts installation until the first success and never
/// attempts again after it, so at most one hook is ever active.
pub struct HookSupervisor {
    pub installed: bool,
}

impl HookSupervisor {
    /// A fresh supervisor: no hook active yet.
    pub fn new() -> (s: Self)
        ensures
            !s.installed,
    {
        HookSupervisor { installed: false }
    }

    /// Records the outcome of one installation attempt. The driver may only
    /// attempt while no hook is active, so a success can never install a
    /// duplicate.
    pub fn on_attempt(&mut self, ok: bool) -> (step: HookStep)
        requires
            !old(self).installed,
        ensures
            final(self).installed == ok,
            step == (if ok {
                HookStep::Activated
            } else {
                HookStep::Retry
            }),
    {
        self.installed = ok;
        if ok {
            HookStep::Activated
        } else {
            HookStep::Retry
        }
    }
}

/// The notification an active hook emits for one observed input event:
/// a key press is forwarded as presence only, everything else is ignored.
pub fn keypress_notification(kind: InputKind) -> (e: Option<AppEvent>)
    ensures
        kind == InputKind::KeyPress ==> (e matches Some(ev) && ev@ == EventView::GlobalKeypress),
        kind != InputKind::KeyPress ==> e is None,
{
    match kind {
        InputKind::KeyPress => Some(AppEvent::GlobalKeypress),
        InputKind::OtherInput => None,
    }
}

/// How many attempts of `results` activate a hook when the supervisor is
/// driven from a fresh state: attempts are consumed in order and the loop
/// stops at the first success, so everything after it is never tried.
pub open spec fn activations(results: Seq<bool>) -> nat
    decreases results.len(),
{
    if results.len() == 0 {
        0
    } else if results.first() {
        1
    } else {
        activations(results.drop_first())
    }
}

/// Watcher resilience: however the installation attempts turn out, at most
/// one of them activates a hook, and as soon as any attempt succeeds,
/// exactly one does — later outcomes can no longer install a duplicate.
pub proof fn lemma_single_activation(results: Seq<bool>)
    ensures
        activations(results) <= 1,
        (exists|i: int| 0 <= i < results.len() && results[i]) ==> activations(results) == 1,
    decreases results.len(),
{
    if results.len() != 0 && !results.first() {
        lemma_single_activation(results.drop_first());
        if exists|i: int| 0 <= i < results.len() && results[i] {
            let i = choose|i: int| 0 <= i < results.len() && results[i];
            assert(results.drop_first()[i - 1]);
        }
    }
}

} // verus!
