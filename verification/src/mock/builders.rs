//! Setting a mock context up for a test: clients, connections, channels,
//! sequence numbers and commitments are put into its store directly.

use vstd::prelude::*;
use crate::channel::ChannelEnd;
use crate::client::{
    AnyClientState,
    AnyConsensusState,
    AnyHeader,
    MockClientState,
    MockConsensusState,
    MockHeader,
    TmClientState,
};
use crate::commitment::PacketCommitment;
use crate::connection::ConnectionEnd;
use crate::events::{events_view, logs_view, IbcEvent};
use crate::height::Height;
use crate::host::{HostBlock, HostType, SyntheticTmBlock};
use crate::identifier::{ChainId, ChannelId, ClientId, ClientType, ConnectionId, PortId, Sequence};
use crate::mock::context::{evenly_spaced, MockContext, DEFAULT_BLOCK_TIME_SECS};
use crate::mock::store::{MockClientRecord, MockClientRecordView};
use crate::path::{ChannelEndPath, PacketPath};
use crate::state::HostState;
use crate::table::Table;
use crate::timestamp::{Duration, Timestamp, NANOS_PER_SEC};

verus! {

/// What a client of the mock context is made from.
#[derive(Debug)]
pub struct MockClientConfig {
    /// The chain that the client follows.
    pub client_chain_id: ChainId,
    pub client_id: ClientId,
    pub client_type: ClientType,
    pub client_state_height: Height,
    /// The heights of the consensus states; where none are given, the one
    /// consensus state stands at the height of the client state.
    pub consensus_state_heights: Vec<Height>,
    /// The time of the latest consensus state.
    pub latest_timestamp: Timestamp,
    pub trusting_period: Duration,
    pub max_clock_drift: Duration,
}

impl MockClientConfig {
    /// A configuration for a stand-in client with one consensus state, a
    /// trusting period of 64000 seconds and a clock drift of three seconds; the
    /// latest timestamp is the present time.
    pub fn new(client_chain_id: ChainId, client_id: ClientId, client_state_height: Height) -> (r:
        MockClientConfig)
        ensures
            r.client_chain_id == client_chain_id,
            r.client_id == client_id,
            r.client_type == ClientType::Mock,
            r.client_state_height == client_state_height,
            r.consensus_state_heights@.len() == 0,
            r.trusting_period.nanos == 64_000_000_000_000,
            r.max_clock_drift.nanos == 3_000_000_000,
    {
        MockClientConfig {
            client_chain_id,
            client_id,
            client_type: ClientType::Mock,
            client_state_height,
            consensus_state_heights: Vec::new(),
            latest_timestamp: Timestamp::now(),
            trusting_period: Duration::from_secs(64000),
            max_clock_drift: Duration::from_millis(3000),
        }
    }
}

/// The record of a stand-in client whose state stands at
/// `client_state_height`, with consensus states at the given heights.
pub open spec fn mock_record(client_state_height: Height, heights: Seq<Height>) -> MockClientRecordView {
    MockClientRecordView {
        client_state: Some(mock_state(client_state_height)),
        consensus_states: Map::new(
            |h: Height| heights.contains(h),
            |h: Height| mock_consensus(h),
        ),
    }
}

/// The state of a stand-in client that stands at `height`.
pub open spec fn mock_state(height: Height) -> AnyClientState {
    AnyClientState::Mock(
        MockClientState {
            header: MockHeader { height, timestamp: Timestamp { nanos: 0 } },
            frozen_height: None,
        },
    )
}

/// The consensus state of a stand-in client at `height`.
pub open spec fn mock_consensus(height: Height) -> AnyConsensusState {
    AnyConsensusState::Mock(
        MockConsensusState { header: MockHeader { height, timestamp: Timestamp { nanos: 0 } } },
    )
}

/// Whether `block` is a made-up Tendermint block of the chain `chain_id` at
/// the height `height` of the chain's revision, with the time `timestamp`
/// and the default validators.
pub open spec fn is_tm_block_at(
    block: SyntheticTmBlock,
    chain_id: ChainId,
    height: u64,
    timestamp: Timestamp,
) -> bool {
    HostBlock::SyntheticTendermint(block)@ == HostBlock::spec_generate(
        chain_id,
        HostType::SyntheticTendermint,
        height,
        timestamp,
        crate::host::default_validators(),
        crate::host::default_validators(),
    ) && block.chain_id == chain_id
}

/// The heights of the consensus states that a configuration asks for.
pub open spec fn config_heights(client: MockClientConfig) -> Seq<Height> {
    if client.consensus_state_heights@.len() == 0 {
        seq![client.client_state_height]
    } else {
        client.consensus_state_heights@
    }
}

/// Place `i` is the last at which its height stands in `heights`.
pub open spec fn is_last_of(heights: Seq<Height>, i: int) -> bool {
    forall|k: int| i < k < heights.len() ==> heights[k] != heights[i]
}

/// Whether `consensus_state` is that of a made-up Tendermint block with the
/// time `timestamp` and the default validators.
pub open spec fn is_synthetic_consensus(
    consensus_state: AnyConsensusState,
    timestamp: Timestamp,
) -> bool {
    consensus_state matches AnyConsensusState::Tendermint(c) && c.timestamp == timestamp
        && c.root@ == crate::host::synthetic_root() && c.next_validators_hash@
        == crate::host::tm_validator_set_hash(crate::host::default_validators())
}

impl MockContext {
    /// Everything but the store is the same in both.
    pub open spec fn same_but_store(self, other: MockContext) -> bool {
        &&& self.same_host(other)
        &&& self.events == other.events
        &&& self.logs == other.logs
    }

    /// Everything but the client records is the same in both.
    pub open spec fn same_but_clients(self, other: MockContext) -> bool {
        &&& self.same_but_store(other)
        &&& self.ibc_store.same_but_clients(other.ibc_store)
    }

    /// Puts a stand-in client into the store, with its state and its one
    /// consensus state at `height`. A record that was stored for the client
    /// is replaced.
    pub fn with_client(self, client_id: &ClientId, height: Height) -> (r: MockContext)
        ensures
            r.same_but_clients(self),
            r.ibc_store.clients@ == self.ibc_store.clients@.insert(
                *client_id,
                MockClientRecordView {
                    client_state: Some(mock_state(height)),
                    consensus_states: Map::<Height, AnyConsensusState>::empty().insert(
                        height,
                        mock_consensus(height),
                    ),
                },
            ),
    {
        self.with_client_parametrized(client_id, height, Some(ClientType::Mock), Some(height))
    }

    /// As `with_client`, for a client of the given type, the stand-in type
    /// where none is given, and with the consensus state at the given height,
    /// that of the client state where none is given. The client follows the
    /// host's own chain.
    pub fn with_client_parametrized(
        self,
        client_id: &ClientId,
        client_state_height: Height,
        client_type: Option<ClientType>,
        consensus_state_height: Option<Height>,
    ) -> (r: MockContext)
        ensures
            r.same_but_clients(self),
            r.holds_new_client(
                self,
                self.host_chain_id,
                *client_id,
                client_state_height,
                client_type,
                consensus_state_height,
            ),
    {
        let client_chain_id = self.host_chain_id.clone();
        self.with_client_parametrized_with_chain_id(
            client_chain_id,
            client_id,
            client_state_height,
            client_type,
            consensus_state_height,
        )
    }

    /// What `with_client_parametrized_with_chain_id` leaves in the store of
    /// `self`, which was that of `before`: the record of the client is
    /// replaced. A stand-in client stands at the client state height and has
    /// one consensus state. A Tendermint client is made from a made-up block
    /// of the client's chain at the consensus state height, which carries
    /// the reading of the clock as its time: the client state is the one
    /// made from the block's header, and the block's consensus state is the
    /// one consensus state.
    pub open spec fn holds_new_client(
        self,
        before: MockContext,
        client_chain_id: ChainId,
        client_id: ClientId,
        client_state_height: Height,
        client_type: Option<ClientType>,
        consensus_state_height: Option<Height>,
    ) -> bool {
        let cs_height = match consensus_state_height {
            Some(h) => h,
            None => client_state_height,
        };
        let kind = match client_type {
            Some(t) => t,
            None => ClientType::Mock,
        };
        match kind {
            ClientType::Mock => self.ibc_store.clients@ == before.ibc_store.clients@.insert(
                client_id,
                MockClientRecordView {
                    client_state: Some(mock_state(client_state_height)),
                    consensus_states: Map::<Height, AnyConsensusState>::empty().insert(
                        cs_height,
                        mock_consensus(cs_height),
                    ),
                },
            ),
            ClientType::Tendermint => exists|block: SyntheticTmBlock|
                #![trigger block.spec_header()]
                {
                    &&& is_tm_block_at(
                        block,
                        client_chain_id,
                        cs_height.revision_height,
                        block.timestamp,
                    )
                    &&& self.ibc_store.clients@ == before.ibc_store.clients@.insert(
                        client_id,
                        MockClientRecordView {
                            client_state: Some(
                                AnyClientState::Tendermint(
                                    TmClientState::spec_dummy_from_header(block.spec_header()),
                                ),
                            ),
                            consensus_states: Map::<Height, AnyConsensusState>::empty().insert(
                                cs_height,
                                AnyHeader::Tendermint(block.spec_header()).spec_consensus_state(),
                            ),
                        },
                    )
                },
        }
    }

    /// As `with_client_parametrized`, for a client that follows the chain
    /// `client_chain_id`.
    pub fn with_client_parametrized_with_chain_id(
        self,
        client_chain_id: ChainId,
        client_id: &ClientId,
        client_state_height: Height,
        client_type: Option<ClientType>,
        consensus_state_height: Option<Height>,
    ) -> (r: MockContext)
        ensures
            r.same_but_clients(self),
            r.holds_new_client(
                self,
                client_chain_id,
                *client_id,
                client_state_height,
                client_type,
                consensus_state_height,
            ),
    {
        let cs_height = match consensus_state_height {
            Some(h) => h,
            None => client_state_height,
        };
        let kind = match client_type {
            Some(t) => t,
            None => ClientType::Mock,
        };
        let mut consensus_states: Table<Height, AnyConsensusState> = Table::new();
        let client_state = match kind {
            ClientType::Mock => {
                consensus_states.insert(
                    cs_height,
                    AnyConsensusState::Mock(MockConsensusState::new(MockHeader::new(cs_height))),
                );
                AnyClientState::Mock(MockClientState::new(MockHeader::new(client_state_height)))
            },
            ClientType::Tendermint => {
                let block = HostBlock::generate_tm_block(
                    client_chain_id,
                    cs_height.revision_height(),
                    Timestamp::now(),
                );
                consensus_states.insert(
                    cs_height,
                    AnyConsensusState::Tendermint(block.consensus_state()),
                );
                let ghost made = block;
                let state = AnyClientState::Tendermint(
                    TmClientState::new_dummy_from_header(block.header()),
                );
                proof {
                    assert(is_tm_block_at(
                        made,
                        client_chain_id,
                        cs_height.revision_height,
                        made.timestamp,
                    ));
                    assert(state == AnyClientState::Tendermint(
                        TmClientState::spec_dummy_from_header(made.spec_header()),
                    ));
                }
                state
            },
        };
        let mut ctx = self;
        ctx.ibc_store.clients.insert(
            *client_id,
            MockClientRecord { client_state: Some(client_state), consensus_states },
        );
        ctx
    }

    /// What `with_client_parametrized_history_with_chain_id` leaves in the
    /// store of `self`, which was that of `before`: as for
    /// `with_client_parametrized_with_chain_id`, with one consensus state
    /// more, at the height before that of the consensus state. Where the
    /// consensus state stands at the first height of its revision, the earlier
    /// one stands at the client state height. For a Tendermint client the
    /// earlier consensus state is made from a block of the host's own chain
    /// that lies one block time before the later one; the later block carries
    /// the reading of the clock, or one block time where the clock reads less.
    pub open spec fn holds_new_client_history(
        self,
        before: MockContext,
        client_chain_id: ChainId,
        client_id: ClientId,
        client_state_height: Height,
        client_type: Option<ClientType>,
        consensus_state_height: Option<Height>,
    ) -> bool {
        let cs_height = match consensus_state_height {
            Some(h) => h,
            None => client_state_height,
        };
        let prev_cs_height = if cs_height.revision_height > 1 {
            cs_height.spec_sub(1)
        } else {
            client_state_height
        };
        let kind = match client_type {
            Some(t) => t,
            None => ClientType::Mock,
        };
        match kind {
            ClientType::Mock => self.ibc_store.clients@ == before.ibc_store.clients@.insert(
                client_id,
                MockClientRecordView {
                    client_state: Some(mock_state(client_state_height)),
                    consensus_states: Map::<Height, AnyConsensusState>::empty().insert(
                        prev_cs_height,
                        mock_consensus(prev_cs_height),
                    ).insert(cs_height, mock_consensus(cs_height)),
                },
            ),
            ClientType::Tendermint => exists|block: SyntheticTmBlock, earlier: SyntheticTmBlock|
                #![trigger block.spec_header(), earlier.spec_header()]
                {
                    &&& is_tm_block_at(
                        block,
                        client_chain_id,
                        cs_height.revision_height,
                        block.timestamp,
                    )
                    &&& is_tm_block_at(
                        earlier,
                        before.host_chain_id,
                        prev_cs_height.revision_height,
                        earlier.timestamp,
                    )
                    &&& earlier.timestamp.nanos + before.block_time.nanos == block.timestamp.nanos
                    &&& self.ibc_store.clients@ == before.ibc_store.clients@.insert(
                        client_id,
                        MockClientRecordView {
                            client_state: Some(
                                AnyClientState::Tendermint(
                                    TmClientState::spec_dummy_from_header(block.spec_header()),
                                ),
                            ),
                            consensus_states: Map::<Height, AnyConsensusState>::empty().insert(
                                prev_cs_height,
                                AnyHeader::Tendermint(earlier.spec_header()).spec_consensus_state(),
                            ).insert(
                                cs_height,
                                AnyHeader::Tendermint(block.spec_header()).spec_consensus_state(),
                            ),
                        },
                    )
                },
        }
    }

    /// As `with_client_parametrized`, with a second, earlier consensus
    /// state. The client follows the host's own chain.
    pub fn with_client_parametrized_history(
        self,
        client_id: &ClientId,
        client_state_height: Height,
        client_type: Option<ClientType>,
        consensus_state_height: Option<Height>,
    ) -> (r: MockContext)
        ensures
            r.same_but_clients(self),
            r.holds_new_client_history(
                self,
                self.host_chain_id,
                *client_id,
                client_state_height,
                client_type,
                consensus_state_height,
            ),
    {
        let client_chain_id = self.host_chain_id.clone();
        self.with_client_parametrized_history_with_chain_id(
            client_chain_id,
            client_id,
            client_state_height,
            client_type,
            consensus_state_height,
        )
    }

    /// As `with_client_parametrized_history`, for a client that follows the
    /// chain `client_chain_id`.
    pub fn with_client_parametrized_history_with_chain_id(
        self,
        client_chain_id: ChainId,
        client_id: &ClientId,
        client_state_height: Height,
        client_type: Option<ClientType>,
        consensus_state_height: Option<Height>,
    ) -> (r: MockContext)
        ensures
            r.same_but_clients(self),
            r.holds_new_client_history(
                self,
                client_chain_id,
                *client_id,
                client_state_height,
                client_type,
                consensus_state_height,
            ),
    {
        let cs_height = match consensus_state_height {
            Some(h) => h,
            None => client_state_height,
        };
        let prev_cs_height = match cs_height.sub(1) {
            Ok(h) => h,
            Err(_) => client_state_height,
        };
        let kind = match client_type {
            Some(t) => t,
            None => ClientType::Mock,
        };
        let mut consensus_states: Table<Height, AnyConsensusState> = Table::new();
        let client_state = match kind {
            ClientType::Mock => {
                consensus_states.insert(
                    prev_cs_height,
                    AnyConsensusState::Mock(
                        MockConsensusState::new(MockHeader::new(prev_cs_height)),
                    ),
                );
                consensus_states.insert(
                    cs_height,
                    AnyConsensusState::Mock(MockConsensusState::new(MockHeader::new(cs_height))),
                );
                AnyClientState::Mock(MockClientState::new(MockHeader::new(client_state_height)))
            },
            ClientType::Tendermint => {
                let clock = Timestamp::now();
                let now = if clock.nanoseconds() < self.block_time.as_nanos() {
                    Timestamp { nanos: self.block_time.as_nanos() }
                } else {
                    clock
                };
                let block = HostBlock::generate_tm_block(
                    client_chain_id,
                    cs_height.revision_height(),
                    now,
                );
                let earlier = HostBlock::generate_tm_block(
                    self.host_chain_id.clone(),
                    prev_cs_height.revision_height(),
                    Timestamp { nanos: now.nanoseconds() - self.block_time.as_nanos() },
                );
                consensus_states.insert(
                    prev_cs_height,
                    AnyConsensusState::Tendermint(earlier.consensus_state()),
                );
                consensus_states.insert(
                    cs_height,
                    AnyConsensusState::Tendermint(block.consensus_state()),
                );
                let ghost made = block;
                let ghost made_earlier = earlier;
                let state = AnyClientState::Tendermint(
                    TmClientState::new_dummy_from_header(block.header()),
                );
                proof {
                    assert(is_tm_block_at(
                        made,
                        client_chain_id,
                        cs_height.revision_height,
                        made.timestamp,
                    ));
                    assert(is_tm_block_at(
                        made_earlier,
                        self.host_chain_id,
                        prev_cs_height.revision_height,
                        made_earlier.timestamp,
                    ));
                    assert(state == AnyClientState::Tendermint(
                        TmClientState::spec_dummy_from_header(made.spec_header()),
                    ));
                }
                state
            },
        };
        let mut ctx = self;
        ctx.ibc_store.clients.insert(
            *client_id,
            MockClientRecord { client_state: Some(client_state), consensus_states },
        );
        ctx
    }

    /// What `with_client_config` asks of the configuration of a Tendermint
    /// client: both periods are longer than nothing, the client state height
    /// lies in the revision of the client's chain, and the times of the
    /// consensus states, which lie one block time apart and end at the latest
    /// timestamp, can be counted back.
    pub open spec fn fits_client(self, client: MockClientConfig) -> bool {
        client.client_type == ClientType::Tendermint ==> {
            &&& client.trusting_period.nanos > 0
            &&& client.max_clock_drift.nanos > 0
            &&& client.client_state_height.revision_number
                == client.client_chain_id.revision_number
            &&& client.consensus_state_heights@.len() <= u32::MAX
            &&& self.block_time.nanos * (config_heights(client).len() - 1)
                <= client.latest_timestamp.nanos
        }
    }

    /// What `with_client_config` leaves in the store of `self`, which was
    /// that of `before`: the record of the client is replaced. A stand-in
    /// client stands at the last of the heights, with a consensus state at
    /// each of them. A Tendermint client stands at the client state height,
    /// with a consensus state at each of the heights, made from a made-up
    /// block of the client's chain; the blocks lie one block time apart in
    /// the order of the heights and end at the latest timestamp, and where a
    /// height comes twice, the later block stands.
    pub open spec fn holds_configured_client(
        self,
        before: MockContext,
        client: MockClientConfig,
    ) -> bool {
        let heights = config_heights(client);
        let record = self.ibc_store.clients@[client.client_id];
        &&& self.ibc_store.clients@ == before.ibc_store.clients@.insert(client.client_id, record)
        &&& match client.client_type {
            ClientType::Mock => record == mock_record(heights.last(), heights),
            ClientType::Tendermint => {
                &&& record.client_state == Some(
                    AnyClientState::Tendermint(
                        TmClientState {
                            chain_id: client.client_chain_id,
                            trusting_period: client.trusting_period,
                            max_clock_drift: client.max_clock_drift,
                            latest_height: client.client_state_height,
                            frozen_height: None,
                        },
                    ),
                )
                &&& forall|h: Height|
                    record.consensus_states.contains_key(h) <==> heights.contains(h)
                &&& forall|i: int|
                    0 <= i < heights.len() && is_last_of(heights, i) ==> is_synthetic_consensus(
                        #[trigger] record.consensus_states[heights[i]],
                        Timestamp {
                            nanos: (client.latest_timestamp.nanos - before.block_time.nanos * (
                            heights.len() - 1 - i)) as u64,
                        },
                    )
            },
        }
    }

    /// Puts the client that the configuration describes into the store. A
    /// record that was stored for the client is replaced.
    pub fn with_client_config(self, client: MockClientConfig) -> (r: MockContext)
        requires
            self.fits_client(client),
        ensures
            r.same_but_clients(self),
            r.holds_configured_client(self, client),
    {
        let ghost heights = config_heights(client);
        let cs_heights: Vec<Height> = if client.consensus_state_heights.len() == 0 {
            let mut one: Vec<Height> = Vec::new();
            one.push(client.client_state_height);
            one
        } else {
            client.consensus_state_heights
        };
        assert(cs_heights@ =~= heights);
        let n = cs_heights.len();
        let mut consensus_states: Table<Height, AnyConsensusState> = Table::new();
        let client_state = match client.client_type {
            ClientType::Mock => {
                let mut i: usize = 0;
                while i < n
                    invariant
                        i <= n,
                        n == cs_heights@.len(),
                        consensus_states@ == mock_record(
                            cs_heights@[0],
                            cs_heights@.subrange(0, i as int),
                        ).consensus_states,
                    decreases n - i,
                {
                    let h = cs_heights[i];
                    consensus_states.insert(
                        h,
                        AnyConsensusState::Mock(MockConsensusState::new(MockHeader::new(h))),
                    );
                    proof {
                        let before = cs_heights@.subrange(0, i as int);
                        let after = cs_heights@.subrange(0, i + 1);
                        assert forall|x: Height| after.contains(x) <==> (before.contains(x) || x
                            == h) by {
                            if before.contains(x) {
                                let j = choose|j: int| 0 <= j < before.len() && before[j] == x;
                                assert(after[j] == x);
                            }
                            if x == h {
                                assert(after[i as int] == x);
                            }
                            if after.contains(x) {
                                let j = choose|j: int| 0 <= j < after.len() && after[j] == x;
                                if j < i {
                                    assert(before[j] == x);
                                }
                            }
                        }
                        assert(consensus_states@ =~= mock_record(
                            cs_heights@[0],
                            after,
                        ).consensus_states);
                    }
                    i += 1;
                }
                assert(cs_heights@.subrange(0, n as int) =~= cs_heights@);
                AnyClientState::Mock(MockClientState::new(MockHeader::new(cs_heights[n - 1])))
            },
            ClientType::Tendermint => {
                let block_nanos: u64 = self.block_time.as_nanos();
                let mut i: usize = 0;
                while i < n
                    invariant
                        i <= n,
                        1 <= n == cs_heights@.len() <= u32::MAX,
                        block_nanos == self.block_time.nanos,
                        block_nanos * (n - 1) <= client.latest_timestamp.nanos,
                        forall|h: Height|
                            consensus_states@.contains_key(h) <==> cs_heights@.subrange(
                                0,
                                i as int,
                            ).contains(h),
                        forall|j: int|
                            0 <= j < i && is_last_of(cs_heights@.subrange(0, i as int), j)
                                ==> is_synthetic_consensus(
                                #[trigger] consensus_states@[cs_heights@[j]],
                                Timestamp {
                                    nanos: (client.latest_timestamp.nanos - block_nanos * (n - 1
                                        - j)) as u64,
                                },
                            ),
                    decreases n - i,
                {
                    let h = cs_heights[i];
                    let back: u64 = (n - 1 - i) as u64;
                    assert(block_nanos * back <= block_nanos * (n - 1)) by (nonlinear_arith)
                        requires
                            back <= n - 1,
                    ;
                    let block = HostBlock::generate_tm_block(
                        client.client_chain_id.clone(),
                        h.revision_height(),
                        Timestamp {
                            nanos: client.latest_timestamp.nanoseconds() - block_nanos * back,
                        },
                    );
                    let ghost old_states = consensus_states@;
                    consensus_states.insert(h, AnyConsensusState::Tendermint(block.consensus_state()));
                    proof {
                        let before = cs_heights@.subrange(0, i as int);
                        let after = cs_heights@.subrange(0, i + 1);
                        assert forall|x: Height| after.contains(x) <==> (before.contains(x) || x
                            == h) by {
                            if before.contains(x) {
                                let j = choose|j: int| 0 <= j < before.len() && before[j] == x;
                                assert(after[j] == x);
                            }
                            if x == h {
                                assert(after[i as int] == x);
                            }
                            if after.contains(x) {
                                let j = choose|j: int| 0 <= j < after.len() && after[j] == x;
                                if j < i {
                                    assert(before[j] == x);
                                }
                            }
                        }
                        assert forall|j: int|
                            0 <= j < i + 1 && is_last_of(
                                after,
                                j,
                            ) implies is_synthetic_consensus(
                            #[trigger] consensus_states@[cs_heights@[j]],
                            Timestamp {
                                nanos: (client.latest_timestamp.nanos - block_nanos * (n - 1
                                    - j)) as u64,
                            },
                        ) by {
                            if j < i {
                                assert(after[j] != after[i as int]);
                                assert(is_last_of(before, j)) by {
                                    assert forall|k: int| j < k < before.len() implies before[k]
                                        != before[j] by {
                                        assert(after[k] != after[j]);
                                    }
                                }
                                assert(consensus_states@[cs_heights@[j]]
                                    == old_states[cs_heights@[j]]);
                            }
                        }
                    }
                    i += 1;
                }
                assert(cs_heights@.subrange(0, n as int) =~= cs_heights@);
                AnyClientState::Tendermint(
                    TmClientState {
                        chain_id: client.client_chain_id,
                        trusting_period: client.trusting_period,
                        max_clock_drift: client.max_clock_drift,
                        latest_height: client.client_state_height,
                        frozen_height: None,
                    },
                )
            },
        };
        let mut ctx = self;
        ctx.ibc_store.clients.insert(
            client.client_id,
            MockClientRecord { client_state: Some(client_state), consensus_states },
        );
        ctx
    }

    /// Puts a connection end into the store.
    pub fn with_connection(self, connection_id: ConnectionId, connection_end: ConnectionEnd) -> (r:
        MockContext)
        ensures
            r.same_but_store(self),
            r.ibc_store.same_beside_state(self.ibc_store),
            r.well_formed() == self.well_formed(),
            r.spec_state() == (HostState {
                connections: self.spec_state().connections.insert(connection_id, connection_end@),
                ..self.spec_state()
            }),
    {
        let mut ctx = self;
        ctx.ibc_store.connections.insert(connection_id, connection_end);
        ctx
    }

    /// Puts a channel end, in whichever state, into the store.
    pub fn with_channel(self, port_id: PortId, chan_id: ChannelId, channel_end: ChannelEnd) -> (r:
        MockContext)
        ensures
            r.same_but_store(self),
            r.ibc_store.same_beside_state(self.ibc_store),
            r.well_formed() == self.well_formed(),
            r.spec_state() == (HostState {
                channels: self.spec_state().channels.insert((port_id@, chan_id), channel_end@),
                ..self.spec_state()
            }),
    {
        let mut ctx = self;
        ctx.ibc_store.channels.insert(ChannelEndPath { port_id, channel_id: chan_id }, channel_end);
        ctx
    }

    /// Sets the sequence number of the next packet to be sent on a channel.
    pub fn with_send_sequence(self, port_id: PortId, chan_id: ChannelId, seq_number: Sequence) -> (r:
        MockContext)
        ensures
            r.same_but_store(self),
            r.ibc_store.same_beside_state(self.ibc_store),
            r.well_formed() == self.well_formed(),
            r.spec_state() == (HostState {
                next_sequence_send: self.spec_state().next_sequence_send.insert(
                    (port_id@, chan_id),
                    seq_number,
                ),
                ..self.spec_state()
            }),
    {
        let mut ctx = self;
        ctx.ibc_store.next_sequence_send.insert(
            ChannelEndPath { port_id, channel_id: chan_id },
            seq_number,
        );
        ctx
    }

    /// Sets the sequence number of the next packet to be received on a
    /// channel.
    pub fn with_recv_sequence(self, port_id: PortId, chan_id: ChannelId, seq_number: Sequence) -> (r:
        MockContext)
        ensures
            r.same_but_store(self),
            r.ibc_store.same_beside_state(self.ibc_store),
            r.well_formed() == self.well_formed(),
            r.spec_state() == (HostState {
                next_sequence_recv: self.spec_state().next_sequence_recv.insert(
                    (port_id@, chan_id),
                    seq_number,
                ),
                ..self.spec_state()
            }),
    {
        let mut ctx = self;
        ctx.ibc_store.next_sequence_recv.insert(
            ChannelEndPath { port_id, channel_id: chan_id },
            seq_number,
        );
        ctx
    }

    /// Sets the sequence number of the next packet to be acknowledged on a
    /// channel. The counters of the other channels, and the counters of
    /// packets sent and received, stay as they are.
    pub fn with_ack_sequence(self, port_id: PortId, chan_id: ChannelId, seq_number: Sequence) -> (r:
        MockContext)
        ensures
            r.same_but_store(self),
            r.ibc_store.same_beside_state(self.ibc_store),
            r.well_formed() == self.well_formed(),
            r.spec_state() == (HostState {
                next_sequence_ack: self.spec_state().next_sequence_ack.insert(
                    (port_id@, chan_id),
                    seq_number,
                ),
                ..self.spec_state()
            }),
    {
        let mut ctx = self;
        ctx.ibc_store.next_sequence_ack.insert(
            ChannelEndPath { port_id, channel_id: chan_id },
            seq_number,
        );
        ctx
    }

    /// Puts the commitment of a packet into the store.
    pub fn with_packet_commitment(
        self,
        port_id: PortId,
        chan_id: ChannelId,
        seq: Sequence,
        data: PacketCommitment,
    ) -> (r: MockContext)
        ensures
            r.same_but_store(self),
            r.ibc_store.same_beside_state(self.ibc_store),
            r.well_formed() == self.well_formed(),
            r.spec_state() == (HostState {
                packet_commitments: self.spec_state().packet_commitments.insert(
                    (port_id@, chan_id, seq),
                    data@,
                ),
                ..self.spec_state()
            }),
    {
        let mut ctx = self;
        ctx.ibc_store.packet_commitment.insert(
            PacketPath { port_id, channel_id: chan_id, sequence: seq },
            data,
        );
        ctx
    }

    /// The state of a client that the store holds.
    pub fn latest_client_states(&self, client_id: &ClientId) -> (r: AnyClientState)
        requires
            self.spec_state().clients.contains_key(*client_id),
        ensures
            r == self.spec_state().clients[*client_id],
    {
        match self.ibc_store.clients.get(client_id) {
            Some(record) => match &record.client_state {
                Some(cs) => cs.clone(),
                None => {
                    proof {
                        assert(false);
                    }
                    AnyClientState::Mock(MockClientState::new(MockHeader::new(Height::min(0))))
                },
            },
            None => {
                proof {
                    assert(false);
                }
                AnyClientState::Mock(MockClientState::new(MockHeader::new(Height::min(0))))
            },
        }
    }

    /// The consensus state of a client at a height that the store holds.
    pub fn latest_consensus_states(&self, client_id: &ClientId, height: &Height) -> (r:
        AnyConsensusState)
        requires
            self.spec_state().consensus_states.contains_key((*client_id, *height)),
        ensures
            r == self.spec_state().consensus_states[(*client_id, *height)],
    {
        match self.ibc_store.clients.get(client_id) {
            Some(record) => match record.consensus_states.get(height) {
                Some(cs) => *cs,
                None => {
                    proof {
                        assert(false);
                    }
                    AnyConsensusState::Mock(MockConsensusState::new(MockHeader::new(*height)))
                },
            },
            None => {
                proof {
                    assert(false);
                }
                AnyConsensusState::Mock(MockConsensusState::new(MockHeader::new(*height)))
            },
        }
    }
}

impl Default for MockContext {
    /// A context with the bare minimum: a stand-in chain `mockgaia-0` in
    /// revision zero that stands at height five and keeps five blocks, three
    /// seconds apart; no clients, connections or channels. The latest block
    /// carries the present time, as `usable_clock` fits it, and the chain can
    /// be moved on.
    fn default() -> (r: MockContext)
        ensures
            r.well_formed(),
            r.spec_latest_height() == (Height { revision_number: 0, revision_height: 5 }),
            r.history@.len() == 5,
            r.max_history_size == 5,
            r.host_chain_type == HostType::Mock,
            r.host_chain_id.name@ == "mockgaia-0"@,
            r.host_chain_id.revision_number == 0,
            r.block_time.nanos == DEFAULT_BLOCK_TIME_SECS * NANOS_PER_SEC,
            r.starts_from(
                r.host_chain_id,
                HostType::Mock,
                r.block_time,
                5,
                Height { revision_number: 0, revision_height: 5 },
                r.spec_latest_timestamp(),
                None,
            ),
            evenly_spaced(r.blocks(), r.block_time),
            DEFAULT_BLOCK_TIME_SECS * NANOS_PER_SEC * 4 <= r.spec_latest_timestamp().nanos,
            r.spec_latest_timestamp().nanos + DEFAULT_BLOCK_TIME_SECS * NANOS_PER_SEC <= u64::MAX,
            r.can_advance(),
            r.ibc_store.is_empty(),
            r.events@.len() == 0,
            r.logs@.len() == 0,
    {
        MockContext::new(
            ChainId::from_parts("mockgaia-0", 0),
            HostType::Mock,
            5,
            Height { revision_number: 0, revision_height: 5 },
        )
    }
}

impl Clone for MockContext {
    /// A context that holds the same: the same blocks, the same store, the
    /// same events and log lines.
    fn clone(&self) -> (r: MockContext)
        ensures
            r.host_chain_type == self.host_chain_type,
            r.host_chain_id == self.host_chain_id,
            r.max_history_size == self.max_history_size,
            r.block_time == self.block_time,
            r.blocks() == self.blocks(),
            r.ibc_store.same_contents(self.ibc_store),
            events_view(r.events@) == events_view(self.events@),
            logs_view(r.logs@) == logs_view(self.logs@),
            r.well_formed() == self.well_formed(),
            self.history@.len() >= 1 ==> r.spec_state() == self.spec_state(),
    {
        let mut history: Vec<HostBlock> = Vec::new();
        let mut i: usize = 0;
        while i < self.history.len()
            invariant
                i <= self.history.len(),
                history@.len() == i,
                forall|j: int| 0 <= j < i ==> (#[trigger] history@[j])@ == self.history@[j]@,
            decreases self.history.len() - i,
        {
            history.push(self.history[i].clone());
            i += 1;
        }
        let mut events: Vec<IbcEvent> = Vec::new();
        let mut i: usize = 0;
        while i < self.events.len()
            invariant
                i <= self.events.len(),
                events@.len() == i,
                forall|j: int| 0 <= j < i ==> (#[trigger] events@[j])@ == self.events@[j]@,
            decreases self.events.len() - i,
        {
            events.push(self.events[i].clone());
            i += 1;
        }
        let mut logs: Vec<String> = Vec::new();
        let mut i: usize = 0;
        while i < self.logs.len()
            invariant
                i <= self.logs.len(),
                logs@.len() == i,
                forall|j: int| 0 <= j < i ==> (#[trigger] logs@[j])@ == self.logs@[j]@,
            decreases self.logs.len() - i,
        {
            logs.push(self.logs[i].clone());
            i += 1;
        }
        let r = MockContext {
            host_chain_type: self.host_chain_type,
            host_chain_id: self.host_chain_id.clone(),
            max_history_size: self.max_history_size,
            history,
            block_time: self.block_time,
            ibc_store: self.ibc_store.clone(),
            events,
            logs,
        };
        proof {
            assert(r.blocks() =~= self.blocks());
            assert(events_view(r.events@) =~= events_view(self.events@));
            assert(logs_view(r.logs@) =~= logs_view(self.logs@));
            assert(r.ibc_store.client_states() =~= self.ibc_store.client_states());
            assert(r.ibc_store.consensus_states() =~= self.ibc_store.consensus_states());
        }
        r
    }
}

} // verus!
