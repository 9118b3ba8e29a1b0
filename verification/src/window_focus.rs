//! Whether the main window has focus, shared between the window-event handler and the sync loop.

use vstd::prelude::*;

verus! {

/// A shared flag that the window-event handler sets and the periodic sync reads.
pub struct WindowFocus(pub std::sync::Arc<std::sync::atomic::AtomicBool>);

impl WindowFocus {
    /// Records whether the window has focus.
    pub fn set(&self, focused: bool) {
        self.0.store(focused, std::sync::atomic::Ordering::Relaxed);
    }

    /// Reads whether the window has focus. Another holder of the flag may have changed it
    /// since the last `set`, so nothing ties the result to an earlier call.
    pub fn get(&self) -> bool {
        self.0.load(std::sync::atomic::Ordering::Relaxed)
    }
}

} // verus!
