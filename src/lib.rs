//! Packet relay engine for a cross-chain messaging protocol: the decisions of
//! the transaction poller, the update-client injecting message sender, the
//! packet relayer decorator stack and the auto-relay scheduler, with the
//! Tendermint light client's update and proof preconditions, stated as
//! contracts and proved. Chain I/O, sleeping and the light-client verifier's
//! cryptography stay with the caller: their outcomes come in as values.
pub mod types;
pub mod message_sender;
pub mod poll;
pub mod retry;
pub mod channel_error;
pub mod packet;
pub mod lock;
pub mod auto_relay;
pub mod update_client;
pub mod tendermint;
pub mod components;
pub mod chain;
pub mod cosmos;
