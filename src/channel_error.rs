use vstd::prelude::*;

verus! {

/// Errors of operations on a light client hosted on another chain.
#[derive(Clone, Debug)]
pub enum ForeignClientError {
    ClientCreate { chain_id: String, description: String },
    ClientUpdate { chain_id: String, description: String },
    /// The client has expired or is frozen: no update can revive it.
    ExpiredOrFrozen { client_id: String, chain_id: String, description: String },
    ClientQuery { client_id: String, chain_id: String },
}

impl ForeignClientError {
    pub open spec fn expired_or_frozen(&self) -> bool {
        self is ExpiredOrFrozen
    }

    pub fn is_expired_or_frozen_error(&self) -> (r: bool)
        ensures
            r == self.expired_or_frozen(),
    {
        matches!(self, ForeignClientError::ExpiredOrFrozen { .. })
    }
}

/// What went wrong in a channel or packet operation.
#[derive(Clone, Debug)]
pub enum ChannelErrorDetail {
    Relayer { reason: String },
    Client { reason: String },
    InvalidChannel { reason: String },
    ClientOperation { client_id: String, chain_id: String, source: ForeignClientError },
    Query { chain_id: String },
    Submit { chain_id: String },
    TxResponse { reason: String },
    RetryInternal { reason: String },
    /// The retry budget ran out: the attempts made, the time spent in
    /// milliseconds, and the last error, described.
    MaxRetry { description: String, tries: u64, total_delay: u64 },
}

impl ChannelErrorDetail {
    /// Only a failed client operation whose cause is an expired or frozen
    /// client is fatal to a relay.
    pub open spec fn expired_or_frozen(&self) -> bool {
        match self {
            ChannelErrorDetail::ClientOperation { source, .. } => source.expired_or_frozen(),
            _ => false,
        }
    }

    pub fn is_expired_or_frozen_error(&self) -> (r: bool)
        ensures
            r == self.expired_or_frozen(),
    {
        match self {
            ChannelErrorDetail::ClientOperation { source, .. } => source.is_expired_or_frozen_error(),
            _ => false,
        }
    }
}

/// A channel error: its detail.
#[derive(Clone, Debug)]
pub struct ChannelError {
    pub detail: ChannelErrorDetail,
}

impl ChannelError {
    pub fn new(detail: ChannelErrorDetail) -> (r: ChannelError)
        ensures
            r.detail == detail,
    {
        ChannelError { detail }
    }

    pub fn detail(&self) -> (r: &ChannelErrorDetail)
        ensures
            *r == self.detail,
    {
        &self.detail
    }

    pub fn is_expired_or_frozen_error(&self) -> (r: bool)
        ensures
            r == self.detail.expired_or_frozen(),
    {
        self.detail().is_expired_or_frozen_error()
    }

    /// The error that ends a relay whose retry budget ran out.
    pub fn max_retry(description: String, tries: u64, total_delay: u64) -> (r: ChannelError)
        ensures
            r.detail == (ChannelErrorDetail::MaxRetry { description, tries, total_delay }),
    {
        ChannelError { detail: ChannelErrorDetail::MaxRetry { description, tries, total_delay } }
    }
}

} // verus!
