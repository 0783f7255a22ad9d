//! The cooperative cancellation token between input handling and the
//! running show.
//!
//! The input task sets the flag when a new show is selected or a stop is
//! requested; the show engine polls it between rendered frames and resets it
//! immediately before dispatching a new show.  After a `reset` the flag
//! reads false; after any later `request` it reads true until the next
//! `reset`.

use vstd::prelude::*;

verus! {

/// A single boolean interrupt flag, set by the input path and polled by the
/// render loop.
#[derive(Debug)]
pub struct ShowCancellationToken {
    requested: bool,
}

impl ShowCancellationToken {
    /// Whether cancellation has been requested since the last reset.
    pub closed spec fn spec_requested(&self) -> bool {
        self.requested
    }

    /// Reads the flag without changing it.
    pub fn is_requested(&self) -> (r: bool)
        ensures
            r == self.spec_requested(),
    {
        self.requested
    }

    /// Asks the running show to stop; idempotent, callable at any time.
    pub fn request(&mut self)
        ensures
            final(self).spec_requested(),
    {
        self.requested = true;
    }

    /// Clears the flag; called by the engine right before a new show starts.
    pub fn reset(&mut self)
        ensures
            !final(self).spec_requested(),
    {
        self.requested = false;
    }
}

impl Default for ShowCancellationToken {
    /// A fresh token with no cancellation pending.
    fn default() -> (t: Self)
        ensures
            !t.spec_requested(),
    {
        ShowCancellationToken { requested: false }
    }
}

} // verus!
