use crate::types::{height_le, height_lt, Height};
use vstd::prelude::*;

verus! {

/// A 32-byte hash or commitment root.
pub type Hash = [u8; 32];

/// Errors of a light client of a Tendermint chain.
#[derive(Clone, Copy, Debug, PartialEq, Eq, Structural)]
pub enum ClientError {
    /// A client, consensus state or header of another client type was given.
    ClientArgsTypeMismatch,
    MismatchedRevisions { current_revision: u64, update_revision: u64 },
    /// The header's trusted height does not fit a Tendermint block height.
    InvalidHeaderHeight { height: Height },
    /// The verifier found too little voting power that it trusts.
    NotEnoughTrustedValsSigned { tally: u64, total: u64 },
    /// The verifier found the header invalid.
    VerificationError,
    HeaderTimestampTooHigh { actual: u64, max: u64 },
    HeaderTimestampTooLow { actual: u64, min: u64 },
    InsufficientHeight { latest_height: Height, target_height: Height },
    ClientFrozen { frozen_height: Height, target_height: Height },
    ProcessedTimeNotFound { height: Height },
    ProcessedHeightNotFound { height: Height },
    TimestampOverflow,
    NotEnoughTimeElapsed { current_time: u64, earliest_time: u64 },
    NotEnoughBlocksElapsed { current_height: Height, earliest_height: Height },
}

/// The state of a Tendermint light client.
#[derive(Clone, Copy, Debug)]
pub struct TmClientState {
    /// The revision of the chain the client follows.
    pub chain_revision: u64,
    pub latest_height: Height,
    pub frozen_height: Option<Height>,
}

/// What a Tendermint light client stores for one height: the block's time
/// in nanoseconds, its commitment root and the hash of the next validators.
#[derive(Clone, Copy, Debug)]
pub struct TmConsensusState {
    pub timestamp: u64,
    pub root: Hash,
    pub next_validators_hash: Hash,
}

/// A Tendermint header for a client update, as far as the update reads it.
#[derive(Clone, Copy, Debug)]
pub struct TmHeader {
    pub height: Height,
    pub trusted_height: Height,
    pub time: u64,
    pub app_hash: Hash,
    pub next_validators_hash: Hash,
}

/// A client state of any client type.
#[derive(Clone, Copy, Debug)]
pub enum AnyClientState {
    Tendermint(TmClientState),
    Other { chain_revision: u64, latest_height: Height },
}

/// A consensus state of any client type.
#[derive(Clone, Copy, Debug)]
pub enum AnyConsensusState {
    Tendermint(TmConsensusState),
    Other { timestamp: u64 },
}

/// A header of any client type.
#[derive(Clone, Copy, Debug)]
pub enum AnyHeader {
    Tendermint(TmHeader),
    Other { height: Height },
}

/// The verdict of the light-client verifier on an untrusted header.
#[derive(Clone, Copy, Debug, PartialEq, Eq, Structural)]
pub enum Verdict {
    Success,
    NotEnoughTrust { tally: u64, total: u64 },
    Invalid,
}

/// The client state and consensus state that an update installs.
#[derive(Clone, Copy, Debug)]
pub struct UpdatedState {
    pub client_state: AnyClientState,
    pub consensus_state: AnyConsensusState,
}

/// The Tendermint light client.
#[derive(Clone, Copy, Debug, PartialEq, Eq, Structural)]
pub struct TendermintClient;

/// What the host chain tells of time and of the client's updates, for the
/// delay check of a proof.
#[derive(Clone, Copy, Debug, PartialEq, Eq, Structural)]
pub struct DelayContext {
    pub host_timestamp: u64,
    pub host_height: Height,
    /// When the client was updated to the proof's height, if it was.
    pub processed_time: Option<u64>,
    pub processed_height: Option<Height>,
    /// The delay period of the connection in blocks.
    pub delay_period_blocks: u64,
}

pub fn hash_eq(a: &Hash, b: &Hash) -> (r: bool)
    ensures
        r == (a@ == b@),
{
    let mut i: usize = 0;
    while i < 32
        invariant
            i <= 32,
            a@.len() == 32,
            b@.len() == 32,
            forall|j: int| 0 <= j < i ==> a@[j] == b@[j],
        decreases 32 - i,
    {
        if a[i] != b[i] {
            return false;
        }
        i = i + 1;
    }
    assert(a@ =~= b@);
    true
}

impl TmConsensusState {
    pub open spec fn same(self, other: TmConsensusState) -> bool {
        self.timestamp == other.timestamp && self.root@ == other.root@
            && self.next_validators_hash@ == other.next_validators_hash@
    }

    pub fn same_as(&self, other: &TmConsensusState) -> (r: bool)
        ensures
            r == self.same(*other),
    {
        self.timestamp == other.timestamp && hash_eq(&self.root, &other.root) && hash_eq(
            &self.next_validators_hash,
            &other.next_validators_hash,
        )
    }

    /// The consensus state that a header installs.
    pub open spec fn of_header(h: TmHeader) -> TmConsensusState {
        TmConsensusState { timestamp: h.time, root: h.app_hash, next_validators_hash: h.next_validators_hash }
    }

    pub fn from_header(h: &TmHeader) -> (r: TmConsensusState)
        ensures
            r == Self::of_header(*h),
    {
        TmConsensusState { timestamp: h.time, root: h.app_hash, next_validators_hash: h.next_validators_hash }
    }
}

impl AnyClientState {
    pub open spec fn revision(self) -> u64 {
        match self {
            AnyClientState::Tendermint(cs) => cs.chain_revision,
            AnyClientState::Other { chain_revision, .. } => chain_revision,
        }
    }

    pub fn chain_revision(&self) -> (r: u64)
        ensures
            r == self.revision(),
    {
        match self {
            AnyClientState::Tendermint(cs) => cs.chain_revision,
            AnyClientState::Other { chain_revision, .. } => *chain_revision,
        }
    }
}

impl AnyConsensusState {
    pub open spec fn time(self) -> u64 {
        match self {
            AnyConsensusState::Tendermint(cs) => cs.timestamp,
            AnyConsensusState::Other { timestamp } => timestamp,
        }
    }

    pub fn timestamp(&self) -> (r: u64)
        ensures
            r == self.time(),
    {
        match self {
            AnyConsensusState::Tendermint(cs) => cs.timestamp,
            AnyConsensusState::Other { timestamp } => *timestamp,
        }
    }
}

impl AnyHeader {
    pub open spec fn height_of(self) -> Height {
        match self {
            AnyHeader::Tendermint(h) => h.height,
            AnyHeader::Other { height } => height,
        }
    }

    pub fn height(&self) -> (r: Height)
        ensures
            r == self.height_of(),
    {
        match self {
            AnyHeader::Tendermint(h) => h.height,
            AnyHeader::Other { height } => *height,
        }
    }
}

pub fn downcast_client_state(cs: &AnyClientState) -> (r: Result<&TmClientState, ClientError>)
    ensures
        match *cs {
            AnyClientState::Tendermint(tm) => r == Ok::<&TmClientState, ClientError>(&tm),
            _ => r == Err::<&TmClientState, _>(ClientError::ClientArgsTypeMismatch),
        },
{
    match cs {
        AnyClientState::Tendermint(tm) => Ok(tm),
        _ => Err(ClientError::ClientArgsTypeMismatch),
    }
}

pub fn downcast_consensus_state(cs: &AnyConsensusState) -> (r: Result<&TmConsensusState, ClientError>)
    ensures
        match *cs {
            AnyConsensusState::Tendermint(tm) => r == Ok::<&TmConsensusState, ClientError>(&tm),
            _ => r == Err::<&TmConsensusState, _>(ClientError::ClientArgsTypeMismatch),
        },
{
    match cs {
        AnyConsensusState::Tendermint(tm) => Ok(tm),
        _ => Err(ClientError::ClientArgsTypeMismatch),
    }
}

pub fn downcast_header(h: &AnyHeader) -> (r: Result<&TmHeader, ClientError>)
    ensures
        match *h {
            AnyHeader::Tendermint(tm) => r == Ok::<&TmHeader, ClientError>(&tm),
            _ => r == Err::<&TmHeader, _>(ClientError::ClientArgsTypeMismatch),
        },
{
    match h {
        AnyHeader::Tendermint(tm) => Ok(tm),
        _ => Err(ClientError::ClientArgsTypeMismatch),
    }
}

/// The largest block height that Tendermint accepts.
pub const MAX_BLOCK_HEIGHT: u64 = 9223372036854775807;

impl TmClientState {
    pub open spec fn height_check(self, height: Height) -> Result<(), ClientError> {
        if height_lt(self.latest_height, height) {
            Err(ClientError::InsufficientHeight { latest_height: self.latest_height, target_height: height })
        } else {
            match self.frozen_height {
                Some(f) => if height_le(f, height) {
                    Err(ClientError::ClientFrozen { frozen_height: f, target_height: height })
                } else {
                    Ok(())
                },
                None => Ok(()),
            }
        }
    }

    /// A proof at `height` can be checked: the client reached it and is not
    /// frozen at or below it.
    pub fn verify_height(&self, height: Height) -> (r: Result<(), ClientError>)
        ensures
            r == self.height_check(height),
    {
        if self.latest_height.lt(&height) {
            return Err(ClientError::InsufficientHeight { latest_height: self.latest_height, target_height: height });
        }
        match self.frozen_height {
            Some(f) => if f.le(&height) {
                Err(ClientError::ClientFrozen { frozen_height: f, target_height: height })
            } else {
                Ok(())
            },
            None => Ok(()),
        }
    }

    /// The state after a verified header: the latest height is the higher
    /// of the two.
    pub open spec fn with_header_spec(self, h: TmHeader) -> TmClientState {
        TmClientState {
            latest_height: if height_lt(self.latest_height, h.height) { h.height } else { self.latest_height },
            ..self
        }
    }

    pub fn with_header(&self, h: &TmHeader) -> (r: TmClientState)
        ensures
            r == self.with_header_spec(*h),
    {
        let latest_height = if self.latest_height.lt(&h.height) {
            h.height
        } else {
            self.latest_height
        };
        TmClientState { chain_revision: self.chain_revision, latest_height, frozen_height: self.frozen_height }
    }

    pub fn with_frozen_height(&self, h: Height) -> (r: TmClientState)
        ensures
            r == (TmClientState { frozen_height: Some(h), ..*self }),
    {
        TmClientState { chain_revision: self.chain_revision, latest_height: self.latest_height, frozen_height: Some(h) }
    }
}

pub open spec fn delay_check(ctx: DelayContext, height: Height, delay_period_time: u64) -> Result<(), ClientError> {
    match (ctx.processed_time, ctx.processed_height) {
        (None, _) => Err(ClientError::ProcessedTimeNotFound { height }),
        (Some(_), None) => Err(ClientError::ProcessedHeightNotFound { height }),
        (Some(t), Some(h)) => if t + delay_period_time > u64::MAX {
            Err(ClientError::TimestampOverflow)
        } else if ctx.host_timestamp < t + delay_period_time {
            Err(ClientError::NotEnoughTimeElapsed {
                current_time: ctx.host_timestamp,
                earliest_time: (t + delay_period_time) as u64,
            })
        } else if h.revision_height + ctx.delay_period_blocks > u64::MAX {
            Err(ClientError::NotEnoughBlocksElapsed {
                current_height: ctx.host_height,
                earliest_height: Height { revision_number: h.revision_number, revision_height: u64::MAX },
            })
        } else if height_lt(ctx.host_height, Height {
            revision_number: h.revision_number,
            revision_height: (h.revision_height + ctx.delay_period_blocks) as u64,
        }) {
            Err(ClientError::NotEnoughBlocksElapsed {
                current_height: ctx.host_height,
                earliest_height: Height {
                    revision_number: h.revision_number,
                    revision_height: (h.revision_height + ctx.delay_period_blocks) as u64,
                },
            })
        } else {
            Ok(())
        },
    }
}

/// A proof at `height` may be used once the connection's delay period has
/// passed since the client was updated to that height, both in time and in
/// blocks. An earliest height past the largest one is never reached.
pub fn verify_delay_passed(ctx: &DelayContext, height: Height, delay_period_time: u64) -> (r: Result<(), ClientError>)
    ensures
        r == delay_check(*ctx, height, delay_period_time),
{
    let processed_time = match ctx.processed_time {
        Some(t) => t,
        None => return Err(ClientError::ProcessedTimeNotFound { height }),
    };
    let processed_height = match ctx.processed_height {
        Some(h) => h,
        None => return Err(ClientError::ProcessedHeightNotFound { height }),
    };
    let earliest_time = match processed_time.checked_add(delay_period_time) {
        Some(t) => t,
        None => return Err(ClientError::TimestampOverflow),
    };
    if ctx.host_timestamp < earliest_time {
        return Err(ClientError::NotEnoughTimeElapsed { current_time: ctx.host_timestamp, earliest_time });
    }
    let earliest_height = match processed_height.revision_height.checked_add(ctx.delay_period_blocks) {
        Some(h) => Height { revision_number: processed_height.revision_number, revision_height: h },
        None => {
            return Err(
                ClientError::NotEnoughBlocksElapsed {
                    current_height: ctx.host_height,
                    earliest_height: Height { revision_number: processed_height.revision_number, revision_height: u64::MAX },
                },
            )
        },
    };
    if ctx.host_height.lt(&earliest_height) {
        return Err(ClientError::NotEnoughBlocksElapsed { current_height: ctx.host_height, earliest_height });
    }
    Ok(())
}

pub open spec fn state_proof_check(client_state: AnyClientState, height: Height) -> Result<(), ClientError> {
    match client_state {
        AnyClientState::Tendermint(tm) => tm.height_check(height),
        _ => Err(ClientError::ClientArgsTypeMismatch),
    }
}

/// What must hold before a proof of a client state, a consensus state, a
/// connection end or a channel end is checked against the commitment root:
/// the client is a Tendermint client that can serve `height`.
pub fn verify_state_proof_preconditions(client_state: &AnyClientState, height: Height) -> (r: Result<(), ClientError>)
    ensures
        r == state_proof_check(*client_state, height),
{
    let tm = downcast_client_state(client_state)?;
    tm.verify_height(height)
}

pub open spec fn packet_proof_check(client_state: AnyClientState, height: Height, ctx: DelayContext, delay_period_time: u64) -> Result<(), ClientError> {
    match client_state {
        AnyClientState::Tendermint(tm) => match tm.height_check(height) {
            Err(e) => Err(e),
            Ok(()) => delay_check(ctx, height, delay_period_time),
        },
        _ => Err(ClientError::ClientArgsTypeMismatch),
    }
}

/// What must hold before a proof of packet data, of an acknowledgement, of
/// the next receive sequence or of a receipt's absence is checked against
/// the commitment root: the client is a Tendermint client that can serve
/// `height`, and the connection's delay has passed.
pub fn verify_packet_proof_preconditions(client_state: &AnyClientState, height: Height, ctx: &DelayContext, delay_period_time: u64) -> (r: Result<(), ClientError>)
    ensures
        r == packet_proof_check(*client_state, height, *ctx, delay_period_time),
{
    let tm = downcast_client_state(client_state)?;
    tm.verify_height(height)?;
    verify_delay_passed(ctx, height, delay_period_time)
}

/// What the host chain holds that the update of a client reads: the
/// consensus state installed at the header's height, if any; the one at the
/// header's trusted height; the nearest ones above and below the header's
/// height, if any.
#[derive(Clone, Copy, Debug)]
pub struct UpdateReads {
    pub existing: Option<AnyConsensusState>,
    pub trusted: AnyConsensusState,
    pub next: Option<AnyConsensusState>,
    pub prev: Option<AnyConsensusState>,
}

pub open spec fn update_outcome(client_state: AnyClientState, header: AnyHeader, reads: UpdateReads, verdict: Verdict) -> Result<UpdatedState, ClientError> {
    if header.height_of().revision_number != client_state.revision() {
        Err(ClientError::MismatchedRevisions {
            current_revision: client_state.revision(),
            update_revision: header.height_of().revision_number,
        })
    } else if !(header is Tendermint) {
        Err(ClientError::ClientArgsTypeMismatch)
    } else {
        let h = header->Tendermint_0;
        let header_cs = TmConsensusState::of_header(h);
        if reads.existing is Some && !(reads.existing->Some_0 is Tendermint) {
            Err(ClientError::ClientArgsTypeMismatch)
        } else if reads.existing is Some && reads.existing->Some_0->Tendermint_0.same(header_cs) {
            Ok(UpdatedState { client_state, consensus_state: reads.existing->Some_0 })
        } else if !(reads.trusted is Tendermint) {
            Err(ClientError::ClientArgsTypeMismatch)
        } else if h.trusted_height.revision_height > MAX_BLOCK_HEIGHT {
            Err(ClientError::InvalidHeaderHeight { height: h.trusted_height })
        } else if !(client_state is Tendermint) {
            Err(ClientError::ClientArgsTypeMismatch)
        } else {
            let tm = client_state->Tendermint_0;
            match verdict {
                Verdict::NotEnoughTrust { tally, total } => Err(ClientError::NotEnoughTrustedValsSigned { tally, total }),
                Verdict::Invalid => Err(ClientError::VerificationError),
                Verdict::Success => if reads.existing is Some {
                    // A verified header that conflicts with the installed
                    // state is evidence of misbehaviour: freeze the client.
                    Ok(UpdatedState {
                        client_state: AnyClientState::Tendermint(TmClientState { frozen_height: Some(h.height), ..tm }),
                        consensus_state: reads.existing->Some_0,
                    })
                } else if height_lt(h.height, tm.latest_height) && reads.next is Some
                    && h.time > reads.next->Some_0.time() {
                    Err(ClientError::HeaderTimestampTooHigh { actual: h.time, max: reads.next->Some_0.time() })
                } else if height_lt(h.trusted_height, h.height) && reads.prev is Some
                    && h.time < reads.prev->Some_0.time() {
                    Err(ClientError::HeaderTimestampTooLow { actual: h.time, min: reads.prev->Some_0.time() })
                } else {
                    Ok(UpdatedState {
                        client_state: AnyClientState::Tendermint(tm.with_header_spec(h)),
                        consensus_state: AnyConsensusState::Tendermint(header_cs),
                    })
                },
            }
        }
    }
}

impl TendermintClient {
    /// Checks a header against the client and gives the states it installs.
    /// The header's revision must be the chain's; a header already installed
    /// with the same consensus state changes nothing; else the verifier's
    /// verdict on the header, given its trusted state, decides; a verified
    /// header that conflicts with an installed state freezes the client;
    /// else its time must lie between the neighbouring consensus states'.
    pub fn check_header_and_update_state(&self, client_state: &AnyClientState, header: &AnyHeader, reads: &UpdateReads, verdict: Verdict) -> (r: Result<UpdatedState, ClientError>)
        ensures
            r == update_outcome(*client_state, *header, *reads, verdict),
    {
        let header_height = header.height();
        let revision = client_state.chain_revision();
        if header_height.revision_number != revision {
            return Err(ClientError::MismatchedRevisions { current_revision: revision, update_revision: header_height.revision_number });
        }
        let h = downcast_header(header)?;
        let header_cs = TmConsensusState::from_header(h);
        let existing: Option<TmConsensusState> = match &reads.existing {
            Some(cs) => {
                let tm_cs = downcast_consensus_state(cs)?;
                if tm_cs.same_as(&header_cs) {
                    return Ok(UpdatedState { client_state: *client_state, consensus_state: *cs });
                }
                Some(*tm_cs)
            },
            None => None,
        };
        let _trusted = downcast_consensus_state(&reads.trusted)?;
        if h.trusted_height.revision_height > MAX_BLOCK_HEIGHT {
            return Err(ClientError::InvalidHeaderHeight { height: h.trusted_height });
        }
        let tm = downcast_client_state(client_state)?;
        match verdict {
            Verdict::Success => {},
            Verdict::NotEnoughTrust { tally, total } => {
                return Err(ClientError::NotEnoughTrustedValsSigned { tally, total });
            },
            Verdict::Invalid => {
                return Err(ClientError::VerificationError);
            },
        }
        if let Some(cs) = existing {
            return Ok(UpdatedState {
                client_state: AnyClientState::Tendermint(tm.with_frozen_height(h.height)),
                consensus_state: AnyConsensusState::Tendermint(cs),
            });
        }
        if h.height.lt(&tm.latest_height) {
            if let Some(next_cs) = &reads.next {
                let max = next_cs.timestamp();
                if h.time > max {
                    return Err(ClientError::HeaderTimestampTooHigh { actual: h.time, max });
                }
            }
        }
        if h.trusted_height.lt(&h.height) {
            if let Some(prev_cs) = &reads.prev {
                let min = prev_cs.timestamp();
                if h.time < min {
                    return Err(ClientError::HeaderTimestampTooLow { actual: h.time, min });
                }
            }
        }
        Ok(UpdatedState {
            client_state: AnyClientState::Tendermint(tm.with_header(h)),
            consensus_state: AnyConsensusState::Tendermint(header_cs),
        })
    }
}

} // verus!
