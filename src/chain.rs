use vstd::prelude::*;

verus! {

/// A context with an error type.
pub trait HasError {
    type Error;
}

/// The types a chain works with.
pub trait ChainContext {
    type Height;

    type Timestamp;

    type Message;

    type Event;
}

/// The protocol types a chain shares with a counterparty chain.
pub trait IbcChainContext<Counterparty: ChainContext>: ChainContext {
    type ClientId;

    type ConnectionId;

    type ChannelId;

    type PortId;

    type Sequence;

    type IbcMessage;

    type IbcEvent;
}

/// A chain whose events can be subscribed to: a lazy, unbounded sequence of
/// heights and events, which the subscription itself reconnects.
pub trait HasEventSubscription: ChainContext {
    type Subscription;

    fn event_subscription(&self) -> &Self::Subscription;
}

/// A context with a handler that updates a client of any type.
pub trait HasAnyUpdateClientHandler: HasError {
    type AnyClientState;

    type AnyConsensusState;

    type AnyClientHeader;

    type ClientId;
}

/// Checks a header against a client state of any type, giving the client
/// and consensus states to install.
pub trait AnyUpdateClientHandler<Context: HasAnyUpdateClientHandler> {
    fn check_header_and_update_state(
        context: &Context,
        client_id: &Context::ClientId,
        client_state: &Context::AnyClientState,
        new_client_header: &Context::AnyClientHeader,
    ) -> Result<(Context::AnyClientState, Context::AnyConsensusState), Context::Error>;
}

/// Checks a header against a client state of one client type.
pub trait UpdateClientHandler<Context: HasError> {
    type ClientId;

    type ClientState;

    type ConsensusState;

    type ClientHeader;

    fn check_header_and_update_state(
        chain: &Context,
        client_id: &Self::ClientId,
        client_state: &Self::ClientState,
        new_client_header: &Self::ClientHeader,
    ) -> Result<(Self::ClientState, Self::ConsensusState), Context::Error>;
}

} // verus!
