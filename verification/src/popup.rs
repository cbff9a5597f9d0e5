//! Transient on-screen notices.  A popup carries only its text; how it is
//! drawn, and the timer that dismisses it, belong to the shell around the
//! core.

use vstd::prelude::*;

use crate::state::Action;

verus! {

/// A transient notice shown over the regular screen content.
pub struct Popup {
    /// The text of the notice.
    pub message: String,
}

impl Popup {
    /// A notice with the given text.
    pub fn new(message: String) -> (r: Popup)
        ensures
            r.message == message,
    {
        Popup { message }
    }

    /// The notice together with the command that arms its auto-dismiss
    /// timer; the shell reports the expiry as a popup-timeout message.
    pub fn with_timeout(self) -> (r: (Popup, Action))
        ensures
            r.0 == self,
            r.1 == Action::StartPopupTimer,
    {
        (self, Action::StartPopupTimer)
    }
}

} // verus!
