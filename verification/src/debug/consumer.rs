//! Diagnostics consumer demand. Read-only assembly runs only when a consumer
//! is active.

use vstd::prelude::*;

verus! {

/// Who wants a diagnostics frame this tick.
#[derive(Clone, Copy, Debug, Default, PartialEq, Eq, Structural)]
pub struct DiagnosticsDemand {
    overlay_visible: bool,
    ipc_subscribed: bool,
}

impl DiagnosticsDemand {
    pub closed spec fn spec_overlay_visible(self) -> bool {
        self.overlay_visible
    }

    pub closed spec fn spec_ipc_subscribed(self) -> bool {
        self.ipc_subscribed
    }

    /// Compose demand from every known consumer.
    pub fn compose(overlay_visible: bool, ipc_subscribed: bool) -> (d: Self)
        ensures
            d.spec_overlay_visible() == overlay_visible,
            d.spec_ipc_subscribed() == ipc_subscribed,
    {
        DiagnosticsDemand { overlay_visible, ipc_subscribed }
    }

    pub fn is_active(self) -> (b: bool)
        ensures
            b == (self.spec_overlay_visible() || self.spec_ipc_subscribed()),
    {
        self.overlay_visible || self.ipc_subscribed
    }

    pub fn overlay_visible(self) -> (b: bool)
        ensures
            b == self.spec_overlay_visible(),
    {
        self.overlay_visible
    }
}

} // verus!
