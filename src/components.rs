use vstd::prelude::*;

verus! {

/// How the auto-relayer schedules the relays of the events it reads.
#[derive(Clone, Copy, Debug, PartialEq, Eq, Structural)]
pub enum AutoRelayStrategy {
    /// One long-lived loop per direction; the relays a loop dispatches run
    /// concurrently, serialised only by the packet locks.
    Concurrent,
    /// The events of one height fan out into parallel relays, and the two
    /// directions' loops run in parallel.
    Parallel,
}

/// The choice of implementation for each capability of a relay, made once
/// at startup.
#[derive(Clone, Copy, Debug, PartialEq, Eq, Structural)]
pub struct ComponentConfig {
    /// The packet relayer stack has the retry stage between the filter and
    /// the full-cycle relay.
    pub retry: bool,
    /// Messages go to a batching worker first, which injects the
    /// update-client messages when it flushes; else they are injected and
    /// sent at once.
    pub batched_sender: bool,
    pub strategy: AutoRelayStrategy,
}

/// The base set of components: lock, logger, filter and full-cycle relay;
/// update-client injection straight to the chain; concurrent auto-relay.
#[derive(Clone, Copy, Debug, PartialEq, Eq, Structural)]
pub struct DefaultComponents;

/// The default components with a retry stage, a batching message sender and
/// parallel auto-relay.
#[derive(Clone, Copy, Debug, PartialEq, Eq, Structural)]
pub struct ExtraComponents;

impl DefaultComponents {
    pub fn config() -> (r: ComponentConfig)
        ensures
            r == (ComponentConfig { retry: false, batched_sender: false, strategy: AutoRelayStrategy::Concurrent }),
    {
        ComponentConfig { retry: false, batched_sender: false, strategy: AutoRelayStrategy::Concurrent }
    }
}

impl ExtraComponents {
    pub fn config() -> (r: ComponentConfig)
        ensures
            r == (ComponentConfig { retry: true, batched_sender: true, strategy: AutoRelayStrategy::Parallel }),
    {
        ComponentConfig { retry: true, batched_sender: true, strategy: AutoRelayStrategy::Parallel }
    }
}

} // verus!
