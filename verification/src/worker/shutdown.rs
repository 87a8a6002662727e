//! Whether the worker has shut down.

use vstd::prelude::*;

verus! {

/// What those who wait for the end of the worker wait for.
#[derive(Debug)]
pub struct InnerTelemetryShutdown {
    is_shutdown: bool,
}

impl InnerTelemetryShutdown {
    /// Whether the worker has shut down.
    pub closed spec fn is_shutdown(&self) -> bool {
        self.is_shutdown
    }

    pub fn new() -> (shutdown: Self)
        ensures
            !shutdown.is_shutdown(),
    {
        InnerTelemetryShutdown { is_shutdown: false }
    }

    /// Whether to go on waiting.
    pub fn wait_for_shutdown(&self) -> (waits: bool)
        ensures
            waits == !self.is_shutdown(),
    {
        !self.is_shutdown
    }

    /// Notes that the worker has shut down.
    pub fn shutdown_finished(&mut self)
        ensures
            final(self).is_shutdown(),
    {
        self.is_shutdown = true;
    }
}

} // verus!
