//! Light clients: the state a host keeps of a counterparty chain, the
//! consensus states it has seen, and the messages that move a client on.

use vstd::prelude::*;
use crate::error::ClientError;
use crate::height::Height;
use crate::identifier::{ChainId, ClientId, ClientType};
use crate::table::Stored;
use crate::timestamp::{Duration, Timestamp};

verus! {

/// Whether a client can be used.
#[derive(Clone, Copy, Debug, PartialEq, Eq, Structural)]
pub enum Status {
    /// Updates and proofs are accepted.
    Active,
    /// Misbehaviour was seen; nothing is accepted any more.
    Frozen,
    /// The latest consensus state is older than the trusting period.
    Expired,
}

/// The root against which proofs about a counterparty's store are checked.
#[derive(Clone, Copy, Debug, PartialEq, Eq)]
pub struct CommitmentRoot {
    pub hash: [u8; 32],
}

impl View for CommitmentRoot {
    type V = Seq<u8>;

    open spec fn view(&self) -> Seq<u8> {
        self.hash@
    }
}

/// The header of the stand-in chain: only a height and a time.
#[derive(Clone, Copy, Debug, PartialEq, Eq, Structural)]
pub struct MockHeader {
    pub height: Height,
    pub timestamp: Timestamp,
}

impl MockHeader {
    pub fn new(height: Height) -> (r: MockHeader)
        ensures
            r == (MockHeader { height, timestamp: Timestamp { nanos: 0 } }),
    {
        MockHeader { height, timestamp: Timestamp::none() }
    }

    pub fn with_timestamp(self, timestamp: Timestamp) -> (r: MockHeader)
        ensures
            r == (MockHeader { height: self.height, timestamp }),
    {
        MockHeader { height: self.height, timestamp }
    }

    pub fn height(&self) -> (r: Height)
        ensures
            r == self.height,
    {
        self.height
    }

    pub fn timestamp(&self) -> (r: Timestamp)
        ensures
            r == self.timestamp,
    {
        self.timestamp
    }
}

/// The state of a stand-in client: the latest header and, once frozen, the
/// height at which misbehaviour was seen.
#[derive(Clone, Copy, Debug, PartialEq, Eq, Structural)]
pub struct MockClientState {
    pub header: MockHeader,
    pub frozen_height: Option<Height>,
}

impl MockClientState {
    pub fn new(header: MockHeader) -> (r: MockClientState)
        ensures
            r == (MockClientState { header, frozen_height: None }),
    {
        MockClientState { header, frozen_height: None }
    }
}

/// The consensus state of a stand-in client: the header it was made from.
#[derive(Clone, Copy, Debug, PartialEq, Eq, Structural)]
pub struct MockConsensusState {
    pub header: MockHeader,
}

impl MockConsensusState {
    pub fn new(header: MockHeader) -> (r: MockConsensusState)
        ensures
            r == (MockConsensusState { header }),
    {
        MockConsensusState { header }
    }
}

/// The state of a Tendermint client.
#[derive(Debug, PartialEq, Eq)]
pub struct TmClientState {
    pub chain_id: ChainId,
    pub trusting_period: Duration,
    pub max_clock_drift: Duration,
    pub latest_height: Height,
    pub frozen_height: Option<Height>,
}

impl TmClientState {
    /// Whether the state can be that of a client: both periods are longer
    /// than nothing, and the latest height lies in the revision of the chain.
    pub open spec fn valid(self) -> bool {
        &&& self.trusting_period.nanos > 0
        &&& self.max_clock_drift.nanos > 0
        &&& self.latest_height.revision_number == self.chain_id.revision_number
    }

    /// The client state that follows the chain of `header` from the header's
    /// height on, with a trusting period of 64000 seconds and a clock drift
    /// of three seconds.
    pub open spec fn spec_dummy_from_header(header: TmHeader) -> TmClientState {
        TmClientState {
            chain_id: header.chain_id,
            trusting_period: Duration { nanos: 64_000_000_000_000 },
            max_clock_drift: Duration { nanos: 3_000_000_000 },
            latest_height: header.height,
            frozen_height: None,
        }
    }

    /// A client state made from a header, for trying things out.
    pub fn new_dummy_from_header(header: TmHeader) -> (r: TmClientState)
        ensures
            r == Self::spec_dummy_from_header(header),
    {
        TmClientState {
            chain_id: header.chain_id,
            trusting_period: Duration::from_secs(64000),
            max_clock_drift: Duration::from_millis(3000),
            latest_height: header.height,
            frozen_height: None,
        }
    }
}

impl Clone for TmClientState {
    fn clone(&self) -> (r: TmClientState)
        ensures
            r == *self,
    {
        TmClientState {
            chain_id: self.chain_id.clone(),
            trusting_period: self.trusting_period,
            max_clock_drift: self.max_clock_drift,
            latest_height: self.latest_height,
            frozen_height: self.frozen_height,
        }
    }
}

/// A consensus state of a Tendermint client.
#[derive(Clone, Copy, Debug, PartialEq, Eq)]
pub struct TmConsensusState {
    pub timestamp: Timestamp,
    pub root: CommitmentRoot,
    pub next_validators_hash: [u8; 32],
}

/// The header of a Tendermint chain, with the height of the consensus state
/// it is to be checked against.
#[derive(Debug, PartialEq, Eq)]
pub struct TmHeader {
    pub chain_id: ChainId,
    pub height: Height,
    pub timestamp: Timestamp,
    pub trusted_height: Height,
    pub root: CommitmentRoot,
    pub validators_hash: [u8; 32],
    pub next_validators_hash: [u8; 32],
}

impl Clone for TmHeader {
    fn clone(&self) -> (r: TmHeader)
        ensures
            r == *self,
    {
        TmHeader {
            chain_id: self.chain_id.clone(),
            height: self.height,
            timestamp: self.timestamp,
            trusted_height: self.trusted_height,
            root: self.root,
            validators_hash: self.validators_hash,
            next_validators_hash: self.next_validators_hash,
        }
    }
}

/// A client state of any of the known client types.
#[derive(Debug, PartialEq, Eq)]
pub enum AnyClientState {
    Tendermint(TmClientState),
    Mock(MockClientState),
}

impl View for AnyClientState {
    type V = AnyClientState;

    open spec fn view(&self) -> AnyClientState {
        *self
    }
}

impl Clone for AnyClientState {
    fn clone(&self) -> (r: AnyClientState)
        ensures
            r == *self,
    {
        match self {
            AnyClientState::Tendermint(cs) => AnyClientState::Tendermint(cs.clone()),
            AnyClientState::Mock(cs) => AnyClientState::Mock(*cs),
        }
    }
}

impl Stored for AnyClientState {
    fn duplicate(&self) -> (r: Self) {
        self.clone()
    }
}

impl From<MockClientState> for AnyClientState {
    fn from(cs: MockClientState) -> (r: AnyClientState)
        ensures
            r == AnyClientState::Mock(cs),
    {
        AnyClientState::Mock(cs)
    }
}

impl vstd::std_specs::convert::FromSpecImpl<MockClientState> for AnyClientState {
    open spec fn obeys_from_spec() -> bool {
        true
    }

    open spec fn from_spec(cs: MockClientState) -> AnyClientState {
        AnyClientState::Mock(cs)
    }
}

impl From<TmClientState> for AnyClientState {
    fn from(cs: TmClientState) -> (r: AnyClientState)
        ensures
            r == AnyClientState::Tendermint(cs),
    {
        AnyClientState::Tendermint(cs)
    }
}

impl vstd::std_specs::convert::FromSpecImpl<TmClientState> for AnyClientState {
    open spec fn obeys_from_spec() -> bool {
        true
    }

    open spec fn from_spec(cs: TmClientState) -> AnyClientState {
        AnyClientState::Tendermint(cs)
    }
}

impl AnyClientState {
    pub open spec fn spec_client_type(self) -> ClientType {
        match self {
            AnyClientState::Tendermint(_) => ClientType::Tendermint,
            AnyClientState::Mock(_) => ClientType::Mock,
        }
    }

    pub open spec fn spec_latest_height(self) -> Height {
        match self {
            AnyClientState::Tendermint(cs) => cs.latest_height,
            AnyClientState::Mock(cs) => cs.header.height,
        }
    }

    pub open spec fn spec_frozen_height(self) -> Option<Height> {
        match self {
            AnyClientState::Tendermint(cs) => cs.frozen_height,
            AnyClientState::Mock(cs) => cs.frozen_height,
        }
    }

    pub open spec fn spec_is_frozen(self) -> bool {
        self.spec_frozen_height() is Some
    }

    /// Whether a consensus state as old as `elapsed` can no longer be trusted.
    /// A stand-in client never expires.
    pub open spec fn spec_expired(self, elapsed: Duration) -> bool {
        match self {
            AnyClientState::Tendermint(cs) => elapsed.nanos > cs.trusting_period.nanos,
            AnyClientState::Mock(_) => false,
        }
    }

    /// The status of a client whose latest consensus state carries the time
    /// `latest_consensus_time`, on a host whose clock reads `now`: frozen if a
    /// freeze height is set; else expired if more than the trusting period has
    /// gone by; else active.
    pub open spec fn spec_status(self, latest_consensus_time: Timestamp, now: Timestamp) -> Status {
        if self.spec_is_frozen() {
            Status::Frozen
        } else if now.nanos >= latest_consensus_time.nanos && self.spec_expired(
            Duration { nanos: (now.nanos - latest_consensus_time.nanos) as u64 },
        ) {
            Status::Expired
        } else {
            Status::Active
        }
    }

    /// The same client state, frozen at `height`.
    pub open spec fn spec_frozen_at(self, height: Height) -> AnyClientState {
        match self {
            AnyClientState::Tendermint(cs) => AnyClientState::Tendermint(
                TmClientState { frozen_height: Some(height), ..cs },
            ),
            AnyClientState::Mock(cs) => AnyClientState::Mock(
                MockClientState { frozen_height: Some(height), ..cs },
            ),
        }
    }

    /// The same client state, moved on to `header`.
    pub open spec fn spec_advanced_to(self, header: AnyHeader) -> AnyClientState {
        match self {
            AnyClientState::Tendermint(cs) => AnyClientState::Tendermint(
                TmClientState { latest_height: header.spec_height(), ..cs },
            ),
            AnyClientState::Mock(cs) => AnyClientState::Mock(
                MockClientState {
                    header: MockHeader {
                        height: header.spec_height(),
                        timestamp: header.spec_timestamp(),
                    },
                    ..cs
                },
            ),
        }
    }

    pub fn client_type(&self) -> (r: ClientType)
        ensures
            r == self.spec_client_type(),
    {
        match self {
            AnyClientState::Tendermint(_) => ClientType::Tendermint,
            AnyClientState::Mock(_) => ClientType::Mock,
        }
    }

    /// The height of the latest header that the client has taken in.
    pub fn latest_height(&self) -> (r: Height)
        ensures
            r == self.spec_latest_height(),
    {
        match self {
            AnyClientState::Tendermint(cs) => cs.latest_height,
            AnyClientState::Mock(cs) => cs.header.height,
        }
    }

    pub fn is_frozen(&self) -> (r: bool)
        ensures
            r == self.spec_is_frozen(),
    {
        match self {
            AnyClientState::Tendermint(cs) => cs.frozen_height.is_some(),
            AnyClientState::Mock(cs) => cs.frozen_height.is_some(),
        }
    }

    /// Derives the status from the time of the latest consensus state and the
    /// host's clock.
    pub fn status(&self, latest_consensus_time: Timestamp, now: Timestamp) -> (r: Status)
        ensures
            r == self.spec_status(latest_consensus_time, now),
    {
        if self.is_frozen() {
            return Status::Frozen;
        }
        match self {
            AnyClientState::Tendermint(cs) => {
                if now.nanoseconds() >= latest_consensus_time.nanoseconds() && now.nanoseconds()
                    - latest_consensus_time.nanoseconds() > cs.trusting_period.as_nanos() {
                    Status::Expired
                } else {
                    Status::Active
                }
            },
            AnyClientState::Mock(_) => Status::Active,
        }
    }

    /// A proof can only speak of a height that the client has reached.
    pub fn validate_proof_height(&self, proof_height: Height) -> (r: Result<(), ClientError>)
        ensures
            self.spec_latest_height().spec_lt(proof_height) ==> r == Err::<(), ClientError>(
                ClientError::InvalidProofHeight,
            ),
            !self.spec_latest_height().spec_lt(proof_height) ==> r is Ok,
    {
        if self.latest_height().lt(&proof_height) {
            Err(ClientError::InvalidProofHeight)
        } else {
            Ok(())
        }
    }

    /// Freezes the client at `height`.
    pub fn frozen_at(self, height: Height) -> (r: AnyClientState)
        ensures
            r == self.spec_frozen_at(height),
    {
        match self {
            AnyClientState::Tendermint(cs) => AnyClientState::Tendermint(
                TmClientState {
                    chain_id: cs.chain_id,
                    trusting_period: cs.trusting_period,
                    max_clock_drift: cs.max_clock_drift,
                    latest_height: cs.latest_height,
                    frozen_height: Some(height),
                },
            ),
            AnyClientState::Mock(cs) => AnyClientState::Mock(
                MockClientState { header: cs.header, frozen_height: Some(height) },
            ),
        }
    }

    /// Moves the client on to `header`.
    pub fn advanced_to(self, header: &AnyHeader) -> (r: AnyClientState)
        ensures
            r == self.spec_advanced_to(*header),
    {
        match self {
            AnyClientState::Tendermint(cs) => AnyClientState::Tendermint(
                TmClientState {
                    chain_id: cs.chain_id,
                    trusting_period: cs.trusting_period,
                    max_clock_drift: cs.max_clock_drift,
                    latest_height: header.height(),
                    frozen_height: cs.frozen_height,
                },
            ),
            AnyClientState::Mock(cs) => AnyClientState::Mock(
                MockClientState {
                    header: MockHeader { height: header.height(), timestamp: header.timestamp() },
                    frozen_height: cs.frozen_height,
                },
            ),
        }
    }
}

/// A consensus state of any of the known client types.
#[derive(Clone, Copy, Debug, PartialEq, Eq)]
pub enum AnyConsensusState {
    Tendermint(TmConsensusState),
    Mock(MockConsensusState),
}

impl View for AnyConsensusState {
    type V = AnyConsensusState;

    open spec fn view(&self) -> AnyConsensusState {
        *self
    }
}

impl Stored for AnyConsensusState {
    fn duplicate(&self) -> (r: Self) {
        *self
    }
}

impl From<MockConsensusState> for AnyConsensusState {
    fn from(cs: MockConsensusState) -> (r: AnyConsensusState)
        ensures
            r == AnyConsensusState::Mock(cs),
    {
        AnyConsensusState::Mock(cs)
    }
}

impl vstd::std_specs::convert::FromSpecImpl<MockConsensusState> for AnyConsensusState {
    open spec fn obeys_from_spec() -> bool {
        true
    }

    open spec fn from_spec(cs: MockConsensusState) -> AnyConsensusState {
        AnyConsensusState::Mock(cs)
    }
}

impl From<TmConsensusState> for AnyConsensusState {
    fn from(cs: TmConsensusState) -> (r: AnyConsensusState)
        ensures
            r == AnyConsensusState::Tendermint(cs),
    {
        AnyConsensusState::Tendermint(cs)
    }
}

impl vstd::std_specs::convert::FromSpecImpl<TmConsensusState> for AnyConsensusState {
    open spec fn obeys_from_spec() -> bool {
        true
    }

    open spec fn from_spec(cs: TmConsensusState) -> AnyConsensusState {
        AnyConsensusState::Tendermint(cs)
    }
}

/// The root that every stand-in consensus state carries.
pub open spec fn mock_root() -> Seq<u8> {
    Seq::new(32, |i: int| 0u8)
}

impl AnyConsensusState {
    pub open spec fn spec_client_type(self) -> ClientType {
        match self {
            AnyConsensusState::Tendermint(_) => ClientType::Tendermint,
            AnyConsensusState::Mock(_) => ClientType::Mock,
        }
    }

    pub open spec fn spec_timestamp(self) -> Timestamp {
        match self {
            AnyConsensusState::Tendermint(cs) => cs.timestamp,
            AnyConsensusState::Mock(cs) => cs.header.timestamp,
        }
    }

    pub open spec fn spec_root(self) -> Seq<u8> {
        match self {
            AnyConsensusState::Tendermint(cs) => cs.root@,
            AnyConsensusState::Mock(_) => mock_root(),
        }
    }

    /// Whether both hold the same data.
    pub open spec fn spec_same(self, other: AnyConsensusState) -> bool {
        match (self, other) {
            (AnyConsensusState::Mock(a), AnyConsensusState::Mock(b)) => a == b,
            (AnyConsensusState::Tendermint(a), AnyConsensusState::Tendermint(b)) => a.timestamp
                == b.timestamp && a.root@ == b.root@ && a.next_validators_hash@
                == b.next_validators_hash@,
            _ => false,
        }
    }

    pub fn client_type(&self) -> (r: ClientType)
        ensures
            r == self.spec_client_type(),
    {
        match self {
            AnyConsensusState::Tendermint(_) => ClientType::Tendermint,
            AnyConsensusState::Mock(_) => ClientType::Mock,
        }
    }

    /// The time of the block that the consensus state was taken from.
    pub fn timestamp(&self) -> (r: Timestamp)
        ensures
            r == self.spec_timestamp(),
    {
        match self {
            AnyConsensusState::Tendermint(cs) => cs.timestamp,
            AnyConsensusState::Mock(cs) => cs.header.timestamp,
        }
    }

    /// The root to check proofs against.
    pub fn root(&self) -> (r: CommitmentRoot)
        ensures
            r@ == self.spec_root(),
    {
        match self {
            AnyConsensusState::Tendermint(cs) => cs.root,
            AnyConsensusState::Mock(_) => {
                let r = CommitmentRoot { hash: [0u8; 32] };
                assert(r@ =~= mock_root());
                r
            },
        }
    }

    /// Whether both hold the same data.
    pub fn same(&self, other: &AnyConsensusState) -> (r: bool)
        ensures
            r == self.spec_same(*other),
    {
        match (self, other) {
            (AnyConsensusState::Mock(a), AnyConsensusState::Mock(b)) => {
                a.header.height.revision_number == b.header.height.revision_number
                    && a.header.height.revision_height == b.header.height.revision_height
                    && a.header.timestamp.nanos == b.header.timestamp.nanos
            },
            (AnyConsensusState::Tendermint(a), AnyConsensusState::Tendermint(b)) => {
                a.timestamp.nanos == b.timestamp.nanos && crate::commitment::digests_equal(
                    &a.root.hash,
                    &b.root.hash,
                ) && crate::commitment::digests_equal(
                    &a.next_validators_hash,
                    &b.next_validators_hash,
                )
            },
            _ => false,
        }
    }
}

/// A header of any of the known client types.
#[derive(Debug, PartialEq, Eq)]
pub enum AnyHeader {
    Tendermint(TmHeader),
    Mock(MockHeader),
}

impl Clone for AnyHeader {
    fn clone(&self) -> (r: AnyHeader)
        ensures
            r == *self,
    {
        match self {
            AnyHeader::Tendermint(h) => AnyHeader::Tendermint(h.clone()),
            AnyHeader::Mock(h) => AnyHeader::Mock(*h),
        }
    }
}

impl AnyHeader {
    pub open spec fn spec_client_type(self) -> ClientType {
        match self {
            AnyHeader::Tendermint(_) => ClientType::Tendermint,
            AnyHeader::Mock(_) => ClientType::Mock,
        }
    }

    pub open spec fn spec_height(self) -> Height {
        match self {
            AnyHeader::Tendermint(h) => h.height,
            AnyHeader::Mock(h) => h.height,
        }
    }

    pub open spec fn spec_timestamp(self) -> Timestamp {
        match self {
            AnyHeader::Tendermint(h) => h.timestamp,
            AnyHeader::Mock(h) => h.timestamp,
        }
    }

    /// The consensus state that the header gives rise to.
    pub open spec fn spec_consensus_state(self) -> AnyConsensusState {
        match self {
            AnyHeader::Tendermint(h) => AnyConsensusState::Tendermint(
                TmConsensusState {
                    timestamp: h.timestamp,
                    root: h.root,
                    next_validators_hash: h.next_validators_hash,
                },
            ),
            AnyHeader::Mock(h) => AnyConsensusState::Mock(MockConsensusState { header: h }),
        }
    }

    pub fn client_type(&self) -> (r: ClientType)
        ensures
            r == self.spec_client_type(),
    {
        match self {
            AnyHeader::Tendermint(_) => ClientType::Tendermint,
            AnyHeader::Mock(_) => ClientType::Mock,
        }
    }

    pub fn height(&self) -> (r: Height)
        ensures
            r == self.spec_height(),
    {
        match self {
            AnyHeader::Tendermint(h) => h.height,
            AnyHeader::Mock(h) => h.height,
        }
    }

    pub fn timestamp(&self) -> (r: Timestamp)
        ensures
            r == self.spec_timestamp(),
    {
        match self {
            AnyHeader::Tendermint(h) => h.timestamp,
            AnyHeader::Mock(h) => h.timestamp,
        }
    }

    /// The consensus state that the header gives rise to.
    pub fn consensus_state(&self) -> (r: AnyConsensusState)
        ensures
            r == self.spec_consensus_state(),
    {
        match self {
            AnyHeader::Tendermint(h) => AnyConsensusState::Tendermint(
                TmConsensusState {
                    timestamp: h.timestamp,
                    root: h.root,
                    next_validators_hash: h.next_validators_hash,
                },
            ),
            AnyHeader::Mock(h) => AnyConsensusState::Mock(MockConsensusState { header: *h }),
        }
    }
}

/// Two headers that a chain should never have produced both.
#[derive(Debug, PartialEq, Eq)]
pub struct Misbehaviour {
    pub client_id: ClientId,
    pub header1: AnyHeader,
    pub header2: AnyHeader,
}

/// What a relayer can submit to move a client on.
#[derive(Debug, PartialEq, Eq)]
pub enum ClientMessage {
    /// A new header of the counterparty chain.
    Header(AnyHeader),
    /// Evidence that the counterparty chain forked.
    Misbehaviour(Misbehaviour),
}

} // verus!
