//! The mock host chain itself: its history of blocks and its protocol store.

use vstd::prelude::*;
use crate::events::IbcEvent;
use crate::height::Height;
use crate::host::{
    usable_validators,
    validators_view,
    HostBlock,
    HostBlockView,
    HostType,
    Validator,
};
use crate::identifier::ChainId;
use crate::mock::store::MockIbcStore;
use crate::timestamp::{Duration, Timestamp, NANOS_PER_SEC};

verus! {

/// The time between two blocks where none is given, in seconds.
pub const DEFAULT_BLOCK_TIME_SECS: u64 = 3;

/// A host chain for trying out the protocol handlers. It keeps the latest
/// blocks of the chain, at most `max_history_size` of them, and a protocol
/// store.
#[derive(Debug)]
pub struct MockContext {
    /// The kind of chain that this context stands for.
    pub host_chain_type: HostType,
    /// The identifier of the chain.
    pub host_chain_id: ChainId,
    /// How many blocks are kept at most. Older blocks are dropped.
    pub max_history_size: u64,
    /// The blocks kept, by rising height: the latest block comes last.
    pub history: Vec<HostBlock>,
    /// The time between two blocks.
    pub block_time: Duration,
    /// Everything that the protocol has stored.
    pub ibc_store: MockIbcStore,
    /// The events reported so far.
    pub events: Vec<IbcEvent>,
    /// The log lines written so far.
    pub logs: Vec<String>,
}

/// What a mock context is made from.
#[derive(Debug)]
pub struct MockContextConfig {
    pub host_type: HostType,
    pub host_id: ChainId,
    pub block_time: Duration,
    pub max_history_size: u64,
    /// The validators of each block and of the block after the last one:
    /// at least one list more than there are blocks. A stand-in host makes
    /// blocks that carry no validators and does not look at the lists; a
    /// Tendermint-like host needs usable validators in each list that a
    /// block uses.
    pub validator_set_history: Option<Vec<Vec<Validator>>>,
    pub latest_height: Height,
    pub latest_timestamp: Timestamp,
}

impl MockContextConfig {
    /// The configuration of a stand-in chain that keeps five blocks, three
    /// seconds apart, with the latest block at the present time.
    pub fn new(host_id: ChainId, latest_height: Height) -> (r: MockContextConfig)
        ensures
            r.host_type == HostType::Mock,
            r.host_id == host_id,
            r.block_time.nanos == DEFAULT_BLOCK_TIME_SECS * NANOS_PER_SEC,
            r.max_history_size == 5,
            r.validator_set_history is None,
            r.latest_height == latest_height,
            DEFAULT_BLOCK_TIME_SECS * NANOS_PER_SEC * 4 <= r.latest_timestamp.nanos,
            r.latest_timestamp.nanos + DEFAULT_BLOCK_TIME_SECS * NANOS_PER_SEC <= u64::MAX,
            host_id.revision_number == latest_height.revision_number
                && latest_height.revision_height != 0 ==> r.valid(),
    {
        assert(DEFAULT_BLOCK_TIME_SECS * NANOS_PER_SEC * 4 >= DEFAULT_BLOCK_TIME_SECS
            * NANOS_PER_SEC * (initial_length(5, latest_height) - 1)) by (nonlinear_arith)
            requires
                initial_length(5, latest_height) <= 5,
        ;
        MockContextConfig {
            host_type: HostType::Mock,
            host_id,
            block_time: Duration::from_secs(DEFAULT_BLOCK_TIME_SECS),
            max_history_size: 5,
            validator_set_history: None,
            latest_height,
            latest_timestamp: MockContext::fit_clock(Timestamp::now(), 5),
        }
    }

    /// Whether a context can be made from the configuration.
    pub open spec fn valid(self) -> bool {
        &&& MockContext::can_start(
            self.host_id,
            self.block_time,
            self.max_history_size,
            self.latest_height,
            self.latest_timestamp,
        )
        &&& self.validator_set_history matches Some(sets) ==> sets@.len() > initial_length(
            self.max_history_size,
            self.latest_height,
        ) && usable_validator_sets(
            self.host_type,
            sets@,
            initial_length(self.max_history_size, self.latest_height) as int,
        )
    }

    /// Whether a context can be made from the configuration.
    pub fn is_valid(&self) -> (r: bool)
        ensures
            r == self.valid(),
    {
        if !MockContext::check_can_start(
            &self.host_id,
            self.block_time,
            self.max_history_size,
            self.latest_height,
            self.latest_timestamp,
        ) {
            return false;
        }
        match &self.validator_set_history {
            None => true,
            Some(sets) => {
                let n: u64 = if self.max_history_size <= self.latest_height.revision_height() {
                    self.max_history_size
                } else {
                    self.latest_height.revision_height()
                };
                if sets.len() as u64 <= n {
                    return false;
                }
                match self.host_type {
                    HostType::Mock => true,
                    HostType::SyntheticTendermint => {
                        let mut i: usize = 0;
                        while i <= n as usize
                            invariant
                                i <= n + 1 <= sets.len(),
                                n <= u32::MAX,
                                n == initial_length(self.max_history_size, self.latest_height),
                                self.host_type == HostType::SyntheticTendermint,
                                MockContext::can_start(
                                    self.host_id,
                                    self.block_time,
                                    self.max_history_size,
                                    self.latest_height,
                                    self.latest_timestamp,
                                ),
                                self.validator_set_history == Some(*sets),
                                forall|j: int|
                                    0 <= j < i ==> usable_validators(
                                        #[trigger] validators_view(sets@[j]@),
                                    ),
                            decreases n + 1 - i,
                        {
                            if !crate::host::validators_usable(sets[i].as_slice()) {
                                assert(!usable_validators(validators_view(sets@[i as int]@)));
                                return false;
                            }
                            i += 1;
                        }
                        true
                    },
                }
            },
        }
    }
}

/// The view of every block of a history.
pub open spec fn history_view(history: Seq<HostBlock>) -> Seq<HostBlockView> {
    Seq::new(history.len(), |i: int| history[i]@)
}

/// Block `i + 1` of the history stands one block above block `i`.
pub open spec fn follows(history: Seq<HostBlockView>, i: int) -> bool {
    history[i].height.revision_height < u64::MAX && history[i + 1].height
        == history[i].height.spec_increment()
}

/// Each block of the history stands one block above the block before it.
pub open spec fn heights_sequential(history: Seq<HostBlockView>) -> bool {
    forall|i: int| 0 <= i < history.len() - 1 ==> #[trigger] follows(history, i)
}

/// Block `i + 1` of the history lies one block time after block `i`.
pub open spec fn spaced(history: Seq<HostBlockView>, block_time: Duration, i: int) -> bool {
    history[i + 1].timestamp.nanos == history[i].timestamp.nanos + block_time.nanos
}

/// Each block of the history lies one block time after the block before it.
pub open spec fn evenly_spaced(history: Seq<HostBlockView>, block_time: Duration) -> bool {
    forall|i: int| 0 <= i < history.len() - 1 ==> #[trigger] spaced(history, block_time, i)
}

/// The last `max` of `all`, or all of them where there are no more.
pub open spec fn kept_last(all: Seq<HostBlockView>, max: int) -> Seq<HostBlockView> {
    if all.len() <= max {
        all
    } else {
        all.subrange(all.len() - max, all.len() as int)
    }
}

/// The number of blocks that a new history holds.
pub open spec fn initial_length(max_history_size: u64, latest_height: Height) -> u64 {
    if max_history_size <= latest_height.revision_height {
        max_history_size
    } else {
        latest_height.revision_height
    }
}

/// Block `k` of a new history of `n` blocks that ends at `latest_height` and
/// `latest_timestamp`: each block stands one block and one block time before
/// the next.
pub open spec fn initial_block(
    host_id: ChainId,
    host_type: HostType,
    block_time: Duration,
    latest_height: Height,
    latest_timestamp: Timestamp,
    validators: Seq<(Seq<char>, u64)>,
    next_validators: Seq<(Seq<char>, u64)>,
    n: int,
    k: int,
) -> HostBlockView {
    HostBlock::spec_generate(
        host_id,
        host_type,
        (latest_height.revision_height - (n - 1 - k)) as u64,
        Timestamp { nanos: (latest_timestamp.nanos - block_time.nanos * (n - 1 - k)) as u64 },
        validators,
        next_validators,
    )
}

/// The validators of block `k`, and of the block after it, in a history made
/// with the given lists of validators, or with none.
pub open spec fn validators_at(history: Option<Seq<Seq<(Seq<char>, u64)>>>, k: int) -> (
    Seq<(Seq<char>, u64)>,
    Seq<(Seq<char>, u64)>,
) {
    match history {
        Some(sets) => (sets[k], sets[k + 1]),
        None => (crate::host::default_validators(), crate::host::default_validators()),
    }
}

/// The views of lists of validators.
pub open spec fn validator_sets_view(sets: Seq<Vec<Validator>>) -> Seq<Seq<(Seq<char>, u64)>> {
    Seq::new(sets.len(), |i: int| validators_view(sets[i]@))
}

/// Whether the lists can be the validators of the blocks of a new history
/// of `n` blocks of a host of the given kind. A stand-in host makes blocks
/// that carry no validators, so nothing is asked of its lists. Of a
/// Tendermint-like host the lists that the blocks use must be usable: those
/// of the `n` blocks and of the block after the last.
pub open spec fn usable_validator_sets(
    host_type: HostType,
    sets: Seq<Vec<Validator>>,
    n: int,
) -> bool {
    host_type == HostType::SyntheticTendermint ==> forall|i: int|
        0 <= i <= n && i < sets.len() ==> usable_validators(#[trigger] validators_view(sets[i]@))
}

/// Whether `history` is what a new context starts with.
pub open spec fn is_initial_history(
    history: Seq<HostBlockView>,
    host_id: ChainId,
    host_type: HostType,
    block_time: Duration,
    latest_height: Height,
    latest_timestamp: Timestamp,
    validators: Option<Seq<Seq<(Seq<char>, u64)>>>,
    n: int,
) -> bool {
    &&& history.len() == n
    &&& forall|k: int|
        0 <= k < n ==> #[trigger] history[k] == initial_block(
            host_id,
            host_type,
            block_time,
            latest_height,
            latest_timestamp,
            validators_at(validators, k).0,
            validators_at(validators, k).1,
            n,
            k,
        )
}

impl MockContext {
    /// The blocks kept, oldest first.
    pub open spec fn blocks(self) -> Seq<HostBlockView> {
        history_view(self.history@)
    }

    /// What `validate` checks: the history is no longer than allowed and its
    /// heights go up one by one.
    pub open spec fn valid_history(self) -> bool {
        &&& self.history@.len() <= self.max_history_size
        &&& heights_sequential(self.blocks())
    }

    /// The context has a latest block, in the revision of the chain, and a
    /// valid history.
    pub open spec fn well_formed(self) -> bool {
        &&& self.history@.len() >= 1
        &&& self.valid_history()
        &&& self.blocks().last().height.revision_number == self.host_chain_id.revision_number
    }

    /// The height of the latest block.
    pub open spec fn spec_latest_height(self) -> Height
        recommends
            self.history@.len() >= 1,
    {
        self.blocks().last().height
    }

    /// The time of the latest block.
    pub open spec fn spec_latest_timestamp(self) -> Timestamp
        recommends
            self.history@.len() >= 1,
    {
        self.blocks().last().timestamp
    }

    /// Makes the blocks of a new history, oldest first.
    fn initial_history(
        host_id: &ChainId,
        host_type: HostType,
        block_time: Duration,
        latest_height: Height,
        latest_timestamp: Timestamp,
        validator_set_history: Option<&[Vec<Validator>]>,
        n: u64,
    ) -> (history: Vec<HostBlock>)
        requires
            1 <= n <= latest_height.revision_height,
            host_id.revision_number == latest_height.revision_number,
            block_time.nanos * (n - 1) <= latest_timestamp.nanos,
            validator_set_history matches Some(sets) ==> sets@.len() > n && usable_validator_sets(
                host_type,
                sets@,
                n as int,
            ),
        ensures
            is_initial_history(
                history_view(history@),
                *host_id,
                host_type,
                block_time,
                latest_height,
                latest_timestamp,
                match validator_set_history {
                    Some(sets) => Some(validator_sets_view(sets@)),
                    None => None,
                },
                n as int,
            ),
            heights_sequential(history_view(history@)),
            evenly_spaced(history_view(history@), block_time),
            history_view(history@).last().height == latest_height,
            history_view(history@).last().timestamp == latest_timestamp,
    {
        let ghost sets_view = match validator_set_history {
            Some(sets) => Some(validator_sets_view(sets@)),
            None => None,
        };
        let mut history: Vec<HostBlock> = Vec::new();
        let mut k: u64 = 0;
        while k < n
            invariant
                k <= n,
                1 <= n <= latest_height.revision_height,
                host_id.revision_number == latest_height.revision_number,
                block_time.nanos * (n - 1) <= latest_timestamp.nanos,
                validator_set_history matches Some(sets) ==> sets@.len() > n
                    && usable_validator_sets(host_type, sets@, n as int),
                sets_view == match validator_set_history {
                    Some(sets) => Some(validator_sets_view(sets@)),
                    None => None,
                },
                history@.len() == k,
                forall|j: int|
                    0 <= j < k ==> #[trigger] history_view(history@)[j] == initial_block(
                        *host_id,
                        host_type,
                        block_time,
                        latest_height,
                        latest_timestamp,
                        validators_at(sets_view, j).0,
                        validators_at(sets_view, j).1,
                        n as int,
                        j,
                    ),
            decreases n - k,
        {
            let back: u64 = n - 1 - k;
            assert(block_time.nanos * back <= block_time.nanos * (n - 1)) by (nonlinear_arith)
                requires
                    back <= n - 1,
            ;
            let height: u64 = latest_height.revision_height() - back;
            let timestamp = Timestamp {
                nanos: latest_timestamp.nanoseconds() - block_time.as_nanos() * back,
            };
            let block = match validator_set_history {
                Some(sets) => {
                    let count: usize = sets.len();
                    assert(k < n < count);
                    let at: usize = k as usize;
                    let current: &Vec<Validator> = &sets[at];
                    let next: &Vec<Validator> = &sets[at + 1];
                    assert(host_type == HostType::SyntheticTendermint ==> usable_validators(
                        validators_view(sets@[at as int]@),
                    ) && usable_validators(validators_view(sets@[at + 1]@)));
                    assert(validator_sets_view(sets@)[at as int] == validators_view(
                        sets@[at as int]@,
                    ));
                    assert(validator_sets_view(sets@)[at + 1] == validators_view(
                        sets@[at + 1]@,
                    ));
                    HostBlock::generate_block_with_validators(
                        host_id.clone(),
                        host_type,
                        height,
                        timestamp,
                        current.as_slice(),
                        next.as_slice(),
                    )
                },
                None => HostBlock::generate_block(host_id.clone(), host_type, height, timestamp),
            };
            let ghost before = history@;
            let ghost made = block@;
            assert(made == initial_block(
                *host_id,
                host_type,
                block_time,
                latest_height,
                latest_timestamp,
                validators_at(sets_view, k as int).0,
                validators_at(sets_view, k as int).1,
                n as int,
                k as int,
            ));
            history.push(block);
            assert(history_view(history@)[k as int] == made);
            proof {
                assert forall|j: int| 0 <= j < k + 1 implies #[trigger] history_view(history@)[j]
                    == initial_block(
                    *host_id,
                    host_type,
                    block_time,
                    latest_height,
                    latest_timestamp,
                    validators_at(sets_view, j).0,
                    validators_at(sets_view, j).1,
                    n as int,
                    j,
                ) by {
                    if j < k {
                        assert(history@[j] == before[j]);
                        assert(history_view(before)[j] == before[j]@);
                    }
                }
            }
            k += 1;
        }
        proof {
            let h = history_view(history@);
            assert forall|i: int| 0 <= i < h.len() - 1 implies #[trigger] follows(h, i) by {
                assert(h[i] == initial_block(
                    *host_id,
                    host_type,
                    block_time,
                    latest_height,
                    latest_timestamp,
                    validators_at(sets_view, i).0,
                    validators_at(sets_view, i).1,
                    n as int,
                    i,
                ));
                assert(h[i + 1] == initial_block(
                    *host_id,
                    host_type,
                    block_time,
                    latest_height,
                    latest_timestamp,
                    validators_at(sets_view, i + 1).0,
                    validators_at(sets_view, i + 1).1,
                    n as int,
                    i + 1,
                ));
            }
            assert forall|i: int| 0 <= i < h.len() - 1 implies #[trigger] spaced(
                h,
                block_time,
                i,
            ) by {
                assert(h[i] == initial_block(
                    *host_id,
                    host_type,
                    block_time,
                    latest_height,
                    latest_timestamp,
                    validators_at(sets_view, i).0,
                    validators_at(sets_view, i).1,
                    n as int,
                    i,
                ));
                assert(h[i + 1] == initial_block(
                    *host_id,
                    host_type,
                    block_time,
                    latest_height,
                    latest_timestamp,
                    validators_at(sets_view, i + 1).0,
                    validators_at(sets_view, i + 1).1,
                    n as int,
                    i + 1,
                ));
                let back = n - 1 - i;
                assert(block_time.nanos * back == block_time.nanos * (back - 1)
                    + block_time.nanos) by (nonlinear_arith);
                assert(block_time.nanos * back <= block_time.nanos * (n - 1))
                    by (nonlinear_arith)
                    requires
                        0 <= back <= n - 1,
                ;
                assert(0 <= block_time.nanos * (back - 1)) by (nonlinear_arith)
                    requires
                        1 <= back,
                ;
            }
            assert(h.last() == h[n - 1]);
            assert(block_time.nanos * (n - 1 - (n - 1)) == 0) by (nonlinear_arith);
            assert(h[n - 1] == initial_block(
                *host_id,
                host_type,
                block_time,
                latest_height,
                latest_timestamp,
                validators_at(sets_view, n - 1).0,
                validators_at(sets_view, n - 1).1,
                n as int,
                n - 1,
            ));
        }
        history
    }

    /// What is asked of the parts of a new context: a place for at least one
    /// block, a latest height that names a block and lies in the revision of
    /// the chain, and a latest time from which the whole history can be
    /// counted back.
    pub open spec fn can_start(
        host_id: ChainId,
        block_time: Duration,
        max_history_size: u64,
        latest_height: Height,
        latest_timestamp: Timestamp,
    ) -> bool {
        &&& max_history_size != 0
        &&& latest_height.revision_height != 0
        &&& host_id.revision_number == latest_height.revision_number
        &&& initial_length(max_history_size, latest_height) <= u32::MAX
        &&& latest_timestamp.nanos + block_time.nanos <= u64::MAX
        &&& block_time.nanos * (initial_length(max_history_size, latest_height) - 1)
            <= latest_timestamp.nanos
    }

    /// Whether `self` is the context that starts from the given parts: its
    /// history runs up to the latest height and time, one block and one block
    /// time apart, and nothing is stored, reported or logged yet.
    pub open spec fn starts_from(
        self,
        host_id: ChainId,
        host_type: HostType,
        block_time: Duration,
        max_history_size: u64,
        latest_height: Height,
        latest_timestamp: Timestamp,
        validators: Option<Seq<Seq<(Seq<char>, u64)>>>,
    ) -> bool {
        &&& self.host_chain_type == host_type
        &&& self.host_chain_id == host_id
        &&& self.max_history_size == max_history_size
        &&& self.block_time == block_time
        &&& is_initial_history(
            self.blocks(),
            host_id,
            host_type,
            block_time,
            latest_height,
            latest_timestamp,
            validators,
            initial_length(max_history_size, latest_height) as int,
        )
        &&& self.ibc_store.is_empty()
        &&& self.events@.len() == 0
        &&& self.logs@.len() == 0
    }

    /// Whether a context can start from the given parts.
    pub fn check_can_start(
        host_id: &ChainId,
        block_time: Duration,
        max_history_size: u64,
        latest_height: Height,
        latest_timestamp: Timestamp,
    ) -> (r: bool)
        ensures
            r == Self::can_start(
                *host_id,
                block_time,
                max_history_size,
                latest_height,
                latest_timestamp,
            ),
    {
        if max_history_size == 0 || latest_height.revision_height() == 0 {
            return false;
        }
        if host_id.revision_number() != latest_height.revision_number() {
            return false;
        }
        let n: u64 = if max_history_size <= latest_height.revision_height() {
            max_history_size
        } else {
            latest_height.revision_height()
        };
        if n > 0xffff_ffff {
            return false;
        }
        if block_time.as_nanos() > u64::MAX - latest_timestamp.nanoseconds() {
            return false;
        }
        assert((block_time.nanos as u128) * ((n - 1) as u128) <= u128::MAX) by (nonlinear_arith)
            requires
                0 <= n - 1 <= 0xffff_ffff,
                0 <= block_time.nanos <= 0xffff_ffff_ffff_ffff,
        ;
        let span = (block_time.as_nanos() as u128) * ((n - 1) as u128);
        assert(span == block_time.nanos * (n - 1)) by (nonlinear_arith)
            requires
                span == (block_time.nanos as u128) * ((n - 1) as u128),
                0 <= n - 1 <= 0xffff_ffff,
                0 <= block_time.nanos <= u64::MAX,
        ;
        span <= latest_timestamp.nanoseconds() as u128
    }

    /// Makes a context from its configuration. The history holds as many
    /// blocks as fit, up to the latest height; the latest block carries the
    /// latest timestamp and each block before it lies one block time earlier.
    /// The chain can then be moved on, unless it stands at the last height
    /// there is.
    pub fn from(params: MockContextConfig) -> (r: MockContext)
        requires
            params.valid(),
        ensures
            r.well_formed(),
            r.spec_latest_height() == params.latest_height,
            r.spec_latest_timestamp() == params.latest_timestamp,
            r.history@.len() == initial_length(params.max_history_size, params.latest_height),
            evenly_spaced(r.blocks(), params.block_time),
            params.latest_height.revision_height < u64::MAX ==> r.can_advance(),
            r.starts_from(
                params.host_id,
                params.host_type,
                params.block_time,
                params.max_history_size,
                params.latest_height,
                params.latest_timestamp,
                match params.validator_set_history {
                    Some(sets) => Some(validator_sets_view(sets@)),
                    None => None,
                },
            ),
    {
        let n: u64 = if params.max_history_size <= params.latest_height.revision_height() {
            params.max_history_size
        } else {
            params.latest_height.revision_height()
        };
        let history = Self::initial_history(
            &params.host_id,
            params.host_type,
            params.block_time,
            params.latest_height,
            params.latest_timestamp,
            match &params.validator_set_history {
                Some(sets) => Some(sets.as_slice()),
                None => None,
            },
            n,
        );
        MockContext {
            host_chain_type: params.host_type,
            host_chain_id: params.host_id,
            max_history_size: params.max_history_size,
            history,
            block_time: params.block_time,
            ibc_store: MockIbcStore::new(),
            events: Vec::new(),
            logs: Vec::new(),
        }
    }

    /// The reading of the clock that a new context takes as the time of its
    /// latest block: the reading itself, unless a history of `n` blocks
    /// cannot be counted back from it or the next block's time cannot be
    /// counted on from it; then the nearest time from which both can.
    pub open spec fn usable_clock(clock: Timestamp, n: u64) -> Timestamp
        recommends
            1 <= n <= u32::MAX,
    {
        let span = DEFAULT_BLOCK_TIME_SECS * NANOS_PER_SEC * (n - 1);
        let top = u64::MAX - DEFAULT_BLOCK_TIME_SECS * NANOS_PER_SEC;
        if clock.nanos < span {
            Timestamp { nanos: span as u64 }
        } else if clock.nanos > top {
            Timestamp { nanos: top as u64 }
        } else {
            clock
        }
    }

    /// Fits a reading of the clock to a history of `n` blocks.
    pub fn fit_clock(clock: Timestamp, n: u64) -> (r: Timestamp)
        requires
            1 <= n <= u32::MAX,
        ensures
            r == Self::usable_clock(clock, n),
            r.nanos + DEFAULT_BLOCK_TIME_SECS * NANOS_PER_SEC <= u64::MAX,
            DEFAULT_BLOCK_TIME_SECS * NANOS_PER_SEC * (n - 1) <= r.nanos,
    {
        let block_nanos: u64 = DEFAULT_BLOCK_TIME_SECS * NANOS_PER_SEC;
        let span: u64 = block_nanos * (n - 1);
        let top: u64 = u64::MAX - block_nanos;
        if clock.nanoseconds() < span {
            Timestamp { nanos: span }
        } else if clock.nanoseconds() > top {
            Timestamp { nanos: top }
        } else {
            clock
        }
    }

    /// Makes a context of the given kind whose chain stands at
    /// `latest_height` and keeps at most `max_history_size` blocks. The
    /// latest block carries the present time, as `usable_clock` fits it, and
    /// blocks lie three seconds apart: the whole history can be counted back
    /// from the latest time, and the time of the next block can be counted on
    /// from it. The chain can then be moved on, unless it stands at the last
    /// height there is.
    pub fn new(
        host_id: ChainId,
        host_type: HostType,
        max_history_size: u64,
        latest_height: Height,
    ) -> (r: MockContext)
        requires
            max_history_size != 0,
            latest_height.revision_height != 0,
            host_id.revision_number == latest_height.revision_number,
            initial_length(max_history_size, latest_height) <= u32::MAX,
        ensures
            r.well_formed(),
            r.spec_latest_height() == latest_height,
            r.starts_from(
                host_id,
                host_type,
                Duration { nanos: (DEFAULT_BLOCK_TIME_SECS * NANOS_PER_SEC) as u64 },
                max_history_size,
                latest_height,
                r.spec_latest_timestamp(),
                None,
            ),
            r.history@.len() == initial_length(max_history_size, latest_height),
            DEFAULT_BLOCK_TIME_SECS * NANOS_PER_SEC * (r.history@.len() - 1)
                <= r.spec_latest_timestamp().nanos,
            r.spec_latest_timestamp().nanos + DEFAULT_BLOCK_TIME_SECS * NANOS_PER_SEC <= u64::MAX,
            evenly_spaced(r.blocks(), r.block_time),
            latest_height.revision_height < u64::MAX ==> r.can_advance(),
    {
        let n: u64 = if max_history_size <= latest_height.revision_height() {
            max_history_size
        } else {
            latest_height.revision_height()
        };
        let latest_timestamp = Self::fit_clock(Timestamp::now(), n);
        Self::from(
            MockContextConfig {
                host_type,
                host_id,
                block_time: Duration::from_secs(DEFAULT_BLOCK_TIME_SECS),
                max_history_size,
                validator_set_history: None,
                latest_height,
                latest_timestamp,
            },
        )
    }

    /// As `new`, with the validators of each block given: block `i` has the
    /// validators `validator_history[i]`, and `validator_history[i + 1]` are
    /// those of the block after it. The history holds one block less than
    /// there are lists. The validators must be usable for a Tendermint-like
    /// host; a stand-in host makes blocks that carry none, and nothing is
    /// asked of the lists but their number. The chain can then be moved on,
    /// unless it stands at the last height there is.
    pub fn new_with_validator_history(
        host_id: ChainId,
        host_type: HostType,
        validator_history: &[Vec<Validator>],
        latest_height: Height,
    ) -> (r: MockContext)
        requires
            2 <= validator_history@.len() <= u32::MAX,
            validator_history@.len() - 1 <= latest_height.revision_height,
            host_id.revision_number == latest_height.revision_number,
            usable_validator_sets(host_type, validator_history@, validator_history@.len() - 1),
        ensures
            r.well_formed(),
            r.spec_latest_height() == latest_height,
            r.history@.len() == validator_history@.len() - 1,
            r.starts_from(
                host_id,
                host_type,
                Duration { nanos: (DEFAULT_BLOCK_TIME_SECS * NANOS_PER_SEC) as u64 },
                (validator_history@.len() - 1) as u64,
                latest_height,
                r.spec_latest_timestamp(),
                Some(validator_sets_view(validator_history@)),
            ),
            DEFAULT_BLOCK_TIME_SECS * NANOS_PER_SEC * (r.history@.len() - 1)
                <= r.spec_latest_timestamp().nanos,
            r.spec_latest_timestamp().nanos + DEFAULT_BLOCK_TIME_SECS * NANOS_PER_SEC <= u64::MAX,
            evenly_spaced(r.blocks(), r.block_time),
            latest_height.revision_height < u64::MAX ==> r.can_advance(),
    {
        let max_history_size: u64 = (validator_history.len() - 1) as u64;
        let latest_timestamp = Self::fit_clock(Timestamp::now(), max_history_size);
        let block_time = Duration::from_secs(DEFAULT_BLOCK_TIME_SECS);
        let history = Self::initial_history(
            &host_id,
            host_type,
            block_time,
            latest_height,
            latest_timestamp,
            Some(validator_history),
            max_history_size,
        );
        MockContext {
            host_chain_type: host_type,
            host_chain_id: host_id,
            max_history_size,
            history,
            block_time,
            ibc_store: MockIbcStore::new(),
            events: Vec::new(),
            logs: Vec::new(),
        }
    }

    /// The block that stands `d` blocks above the latest once the chain has
    /// moved on that far: a block with the default validators, `d` block
    /// times later than the latest.
    pub open spec fn spec_block_above(self, d: int) -> HostBlockView
        recommends
            self.history@.len() >= 1,
    {
        HostBlock::spec_generate(
            self.host_chain_id,
            self.host_chain_type,
            (self.spec_latest_height().revision_height + d) as u64,
            Timestamp {
                nanos: (self.spec_latest_timestamp().nanos + self.block_time.nanos * d) as u64,
            },
            crate::host::default_validators(),
            crate::host::default_validators(),
        )
    }

    /// The blocks kept, followed by the next `steps` blocks of the chain.
    pub open spec fn spec_grown(self, steps: int) -> Seq<HostBlockView>
        recommends
            self.history@.len() >= 1,
            steps >= 0,
    {
        self.blocks() + Seq::new(steps as nat, |j: int| self.spec_block_above(j + 1))
    }

    /// Moves the chain on, block by block, until it stands at
    /// `target_height`, which must lie in the revision of the latest block and
    /// not below it. The history is then the old one with the new blocks
    /// behind it, as far as it is kept: the oldest blocks are dropped where
    /// there are more than `max_history_size`. A target that is the latest
    /// height leaves the context as it is.
    pub fn with_height(self, target_height: Height) -> (r: MockContext)
        requires
            self.well_formed(),
            self.can_reach(target_height),
        ensures
            r.well_formed(),
            r.spec_latest_height() == target_height,
            r.spec_latest_timestamp().nanos == self.spec_latest_timestamp().nanos
                + self.block_time.nanos * (target_height.revision_height
                - self.spec_latest_height().revision_height),
            r.same_but_history(self),
            r.blocks() == kept_last(
                self.spec_grown(
                    target_height.revision_height - self.spec_latest_height().revision_height,
                ),
                self.max_history_size as int,
            ),
            r.history@.len() == if self.history@.len() + (target_height.revision_height
                - self.spec_latest_height().revision_height) <= self.max_history_size {
                self.history@.len() + (target_height.revision_height
                    - self.spec_latest_height().revision_height)
            } else {
                self.max_history_size as int
            },
            target_height == self.spec_latest_height() ==> r.history == self.history,
    {
        let mut ctx = self;
        let ghost start = self.spec_latest_height().revision_height;
        let ghost start_time = self.spec_latest_timestamp().nanos;
        assert(self.block_time.nanos * (start - start) == 0) by (nonlinear_arith);
        assert(self.spec_grown(0) =~= self.blocks());
        while ctx.latest_height().revision_height() < target_height.revision_height()
            invariant
                ctx.well_formed(),
                self.well_formed(),
                start == self.spec_latest_height().revision_height,
                start_time == self.spec_latest_timestamp().nanos,
                ctx.same_but_history(self),
                ctx.spec_latest_height().revision_height == start ==> ctx.history == self.history,
                ctx.blocks() == kept_last(
                    self.spec_grown(ctx.spec_latest_height().revision_height - start),
                    self.max_history_size as int,
                ),
                ctx.spec_latest_height().revision_number == target_height.revision_number,
                start <= ctx.spec_latest_height().revision_height <= target_height.revision_height,
                ctx.spec_latest_timestamp().nanos == start_time + self.block_time.nanos * (
                ctx.spec_latest_height().revision_height - start),
                start_time + self.block_time.nanos * (target_height.revision_height - start)
                    <= u64::MAX,
            decreases target_height.revision_height - ctx.spec_latest_height().revision_height,
        {
            let ghost at = ctx.spec_latest_height().revision_height;
            assert(self.block_time.nanos * (at + 1 - start) == self.block_time.nanos * (at
                - start) + self.block_time.nanos) by (nonlinear_arith);
            assert(self.block_time.nanos * (at + 1 - start) <= self.block_time.nanos * (
            target_height.revision_height - start)) by (nonlinear_arith)
                requires
                    at + 1 - start <= target_height.revision_height - start,
            ;
            assert(ctx.can_advance());
            let ghost before = ctx;
            ctx.advance_host_chain_height();
            proof {
                let k = at - start;
                assert(self.block_time.nanos * (k + 1) == self.block_time.nanos * (at + 1
                    - start));
                assert(before.spec_latest_height().revision_height + 1
                    == self.spec_latest_height().revision_height + (k + 1));
                assert(before.spec_latest_timestamp().nanos + before.block_time.nanos
                    == self.spec_latest_timestamp().nanos + self.block_time.nanos * (k + 1));
                assert(before.spec_next_block() == self.spec_block_above(k + 1));
                assert(self.spec_grown(k + 1) =~= self.spec_grown(k).push(
                    self.spec_block_above(k + 1),
                ));
                lemma_kept_last_push(
                    self.spec_grown(k),
                    self.spec_block_above(k + 1),
                    self.max_history_size as int,
                );
                let next = kept_last(self.spec_grown(k + 1), self.max_history_size as int);
                assert(ctx.blocks() =~= ctx.blocks().drop_last().push(ctx.blocks().last()));
                assert(next =~= next.drop_last().push(next.last()));
            }
        }
        proof {
            let all = self.spec_grown(target_height.revision_height - start);
            assert(all.len() == self.history@.len() + (target_height.revision_height - start));
        }
        ctx
    }

    /// The height of the latest block.
    pub fn latest_height(&self) -> (r: Height)
        requires
            self.history@.len() >= 1,
        ensures
            r == self.spec_latest_height(),
    {
        self.history[self.history.len() - 1].height()
    }

    /// The time of the latest block.
    pub fn latest_timestamp(&self) -> (r: Timestamp)
        requires
            self.history@.len() >= 1,
        ensures
            r == self.spec_latest_timestamp(),
    {
        self.history[self.history.len() - 1].timestamp()
    }

    /// Checks the history: it may hold at most `max_history_size` blocks, and
    /// each block must stand one block above the one before it.
    pub fn validate(&self) -> (r: Result<(), String>)
        ensures
            r is Ok <==> self.valid_history(),
            self.history@.len() > self.max_history_size ==> r is Err && r->Err_0@
                == "too many entries"@,
            self.history@.len() <= self.max_history_size && !heights_sequential(self.blocks())
                ==> r is Err && r->Err_0@ == "headers in history not sequential"@,
    {
        if self.history.len() as u64 > self.max_history_size {
            return Err("too many entries".to_owned());
        }
        let mut i: usize = 1;
        while i < self.history.len()
            invariant
                1 <= i,
                self.history@.len() == 0 || i <= self.history@.len(),
                self.history@.len() <= self.max_history_size,
                self.blocks().len() == self.history@.len(),
                forall|j: int| 0 <= j < i - 1 ==> #[trigger] follows(self.blocks(), j),
            decreases self.history.len() - i,
        {
            let ph = self.history[i - 1].height();
            let h = self.history[i].height();
            assert(self.blocks()[i - 1] == self.history@[i - 1]@);
            assert(self.blocks()[i as int] == self.history@[i as int]@);
            if ph.revision_height() == u64::MAX || !(ph.increment().same_as(&h)) {
                assert(!follows(self.blocks(), i - 1));
                return Err("headers in history not sequential".to_owned());
            }
            assert(follows(self.blocks(), i - 1));
            i += 1;
        }
        Ok(())
    }

    /// The block that stands as high within the revision as `target_height`
    /// says, if it is kept: it must not lie above the latest block, nor have
    /// been dropped. The revision of `target_height` is not looked at: where
    /// it is the revision of the chain, the block is the one at
    /// `target_height`.
    pub fn host_block(&self, target_height: &Height) -> (r: Option<&HostBlock>)
        requires
            self.well_formed(),
        ensures
            match r {
                Some(block) => {
                    &&& target_height.revision_height <= self.spec_latest_height().revision_height
                    &&& self.spec_latest_height().revision_height - target_height.revision_height
                        < self.history@.len()
                    &&& block@ == self.blocks()[self.history@.len() - 1 - (
                    self.spec_latest_height().revision_height - target_height.revision_height)]
                    &&& block@.height.revision_height == target_height.revision_height
                    &&& block@.height.revision_number
                        == self.spec_latest_height().revision_number
                    &&& target_height.revision_number
                        == self.spec_latest_height().revision_number ==> block@.height
                        == *target_height
                },
                None => target_height.revision_height > self.spec_latest_height().revision_height
                    || self.spec_latest_height().revision_height - target_height.revision_height
                    >= self.history@.len(),
            },
    {
        let target = target_height.revision_height();
        let latest = self.latest_height().revision_height();
        if target > latest || latest - target >= self.history.len() as u64 {
            None
        } else {
            let back: usize = (latest - target) as usize;
            let index: usize = self.history.len() - 1 - back;
            proof {
                lemma_heights_from_last(self.blocks(), index as int);
                assert(self.blocks()[index as int] == self.history@[index as int]@);
            }
            Some(&self.history[index])
        }
    }

    /// The latest block of the chain.
    pub fn query_latest_header(&self) -> (r: Option<HostBlock>)
        requires
            self.well_formed(),
        ensures
            r matches Some(block) && block@ == self.blocks().last(),
    {
        let latest = self.latest_height();
        match self.host_block(&latest) {
            Some(block) => Some(block.clone()),
            None => None,
        }
    }

    /// The block that comes after the latest: one block above it and one
    /// block time later.
    pub open spec fn spec_next_block(self) -> HostBlockView
        recommends
            self.history@.len() >= 1,
    {
        HostBlock::spec_generate(
            self.host_chain_id,
            self.host_chain_type,
            (self.spec_latest_height().revision_height + 1) as u64,
            Timestamp {
                nanos: (self.spec_latest_timestamp().nanos + self.block_time.nanos) as u64,
            },
            crate::host::default_validators(),
            crate::host::default_validators(),
        )
    }

    /// Whether the chain can be moved on: the height and the time of the
    /// next block must be representable.
    pub open spec fn can_advance(self) -> bool {
        &&& self.spec_latest_height().revision_height < u64::MAX
        &&& self.spec_latest_timestamp().nanos + self.block_time.nanos <= u64::MAX
    }

    /// Whether the context has a latest block, in the revision of the chain,
    /// and a valid history.
    pub fn check_well_formed(&self) -> (r: bool)
        ensures
            r == self.well_formed(),
    {
        if self.history.len() == 0 {
            return false;
        }
        let latest = self.history[self.history.len() - 1].height();
        assert(self.blocks().last() == self.history@.last()@);
        match self.validate() {
            Ok(_) => latest.revision_number() == self.host_chain_id.revision_number(),
            Err(_) => false,
        }
    }

    /// Whether the chain can be moved on by one block.
    pub fn check_can_advance(&self) -> (r: bool)
        requires
            self.history@.len() >= 1,
        ensures
            r == self.can_advance(),
    {
        self.latest_height().revision_height() < u64::MAX && self.block_time.as_nanos() <= u64::MAX
            - self.latest_timestamp().nanoseconds()
    }

    /// Whether the chain can be moved on to `target_height`: the height must
    /// lie in the revision of the latest block and not below it, and the time
    /// of the block at that height must be representable.
    pub open spec fn can_reach(self, target_height: Height) -> bool {
        &&& target_height.revision_number == self.spec_latest_height().revision_number
        &&& target_height.revision_height >= self.spec_latest_height().revision_height
        &&& self.spec_latest_timestamp().nanos + self.block_time.nanos * (
        target_height.revision_height - self.spec_latest_height().revision_height) <= u64::MAX
    }

    /// Whether the chain can be moved on to `target_height`.
    pub fn check_can_reach(&self, target_height: Height) -> (r: bool)
        requires
            self.history@.len() >= 1,
        ensures
            r == self.can_reach(target_height),
    {
        let latest = self.latest_height();
        if target_height.revision_number() != latest.revision_number()
            || target_height.revision_height() < latest.revision_height() {
            return false;
        }
        let blocks: u64 = target_height.revision_height() - latest.revision_height();
        assert((self.block_time.nanos as u128) * (blocks as u128) <= 0xffff_ffff_ffff_ffff
            * 0xffff_ffff_ffff_ffff) by (nonlinear_arith)
            requires
                0 <= blocks <= 0xffff_ffff_ffff_ffff,
                0 <= self.block_time.nanos <= 0xffff_ffff_ffff_ffff,
        ;
        let span = (self.block_time.as_nanos() as u128) * (blocks as u128);
        assert(span == self.block_time.nanos * blocks) by (nonlinear_arith)
            requires
                span == (self.block_time.nanos as u128) * (blocks as u128),
                0 <= blocks <= u64::MAX,
                0 <= self.block_time.nanos <= u64::MAX,
        ;
        assert(span <= 0xffff_ffff_ffff_ffff * 0xffff_ffff_ffff_ffff) by (nonlinear_arith)
            requires
                span == self.block_time.nanos * blocks,
                0 <= blocks <= 0xffff_ffff_ffff_ffff,
                0 <= self.block_time.nanos <= 0xffff_ffff_ffff_ffff,
        ;
        span + (self.latest_timestamp().nanoseconds() as u128) <= u64::MAX as u128
    }

    /// Makes the block that comes after the latest.
    pub fn next_block(&self) -> (r: HostBlock)
        requires
            self.well_formed(),
            self.can_advance(),
        ensures
            r@ == self.spec_next_block(),
    {
        let latest_height = self.latest_height();
        let latest_timestamp = self.latest_timestamp();
        HostBlock::generate_block(
            self.host_chain_id.clone(),
            self.host_chain_type,
            latest_height.increment().revision_height(),
            Timestamp { nanos: latest_timestamp.nanoseconds() + self.block_time.as_nanos() },
        )
    }

    /// Puts a block at the end of the history. Where the history is full,
    /// the oldest block is dropped.
    pub fn push_block(&mut self, block: HostBlock)
        requires
            old(self).well_formed(),
            old(self).spec_latest_height().revision_height < u64::MAX,
            block@.height == old(self).spec_latest_height().spec_increment(),
        ensures
            final(self).well_formed(),
            final(self).blocks().last() == block@,
            old(self).history@.len() < old(self).max_history_size ==> final(self).blocks().drop_last()
                == old(self).blocks(),
            old(self).history@.len() == old(self).max_history_size
                ==> final(self).blocks().drop_last() == old(self).blocks().drop_first(),
            final(self).history@.len() == if old(self).history@.len() < old(self).max_history_size {
                old(self).history@.len() + 1
            } else {
                old(self).history@.len()
            },
            final(self).same_but_history(*old(self)),
    {
        let ghost before = self.blocks();
        assert(before.last() == self.history@.last()@);
        let ghost new_view = block@;
        let full = self.history.len() as u64 >= self.max_history_size;
        if full {
            let _ = self.history.remove(0);
        }
        self.history.push(block);
        proof {
            let after = self.blocks();
            if full {
                assert(after.drop_last() =~= before.drop_first());
                assert forall|i: int| 0 <= i < after.len() - 1 implies #[trigger] follows(
                    after,
                    i,
                ) by {
                    assert(after[i] == before[i + 1]);
                    if i + 1 < after.len() - 1 {
                        assert(after[i + 1] == before[i + 1 + 1]);
                        assert(follows(before, i + 1));
                    } else {
                        assert(after[i + 1] == new_view);
                        assert(before[i + 1] == before.last());
                    }
                }
            } else {
                assert(after.drop_last() =~= before);
                assert forall|i: int| 0 <= i < after.len() - 1 implies #[trigger] follows(
                    after,
                    i,
                ) by {
                    assert(after[i] == before[i]);
                    if i + 1 < after.len() - 1 {
                        assert(after[i + 1] == before[i + 1]);
                        assert(follows(before, i));
                    } else {
                        assert(after[i + 1] == new_view);
                        assert(before[i] == before.last());
                    }
                }
            }
            assert(after.last() == new_view);
        }
    }

    /// Moves the chain on by one block: a block one above the latest and one
    /// block time later is made and put at the end of the history. Where the
    /// history is full, the oldest block is dropped.
    pub fn advance_host_chain_height(&mut self)
        requires
            old(self).well_formed(),
            old(self).can_advance(),
        ensures
            final(self).well_formed(),
            final(self).spec_latest_height() == old(self).spec_latest_height().spec_increment(),
            final(self).spec_latest_timestamp().nanos == old(self).spec_latest_timestamp().nanos
                + old(self).block_time.nanos,
            final(self).blocks().last() == old(self).spec_next_block(),
            old(self).history@.len() < old(self).max_history_size ==> final(self).blocks().drop_last()
                == old(self).blocks(),
            old(self).history@.len() == old(self).max_history_size
                ==> final(self).blocks().drop_last() == old(self).blocks().drop_first(),
            final(self).history@.len() <= final(self).max_history_size,
            final(self).history@.len() == if old(self).history@.len() < old(self).max_history_size {
                old(self).history@.len() + 1
            } else {
                old(self).history@.len()
            },
            final(self).same_but_history(*old(self)),
    {
        let block = self.next_block();
        self.push_block(block);
    }

    /// Everything but the history is the same in both.
    pub open spec fn same_but_history(self, other: MockContext) -> bool {
        &&& self.host_chain_type == other.host_chain_type
        &&& self.host_chain_id == other.host_chain_id
        &&& self.max_history_size == other.max_history_size
        &&& self.block_time == other.block_time
        &&& self.ibc_store == other.ibc_store
        &&& self.events == other.events
        &&& self.logs == other.logs
    }
}

/// Putting one more block behind a history and keeping the last `max` comes
/// to the same as keeping the last `max` first and then putting the block
/// behind them, with the oldest dropped where the history is full.
pub proof fn lemma_kept_last_push(all: Seq<HostBlockView>, block: HostBlockView, max: int)
    requires
        max >= 1,
    ensures
        kept_last(all.push(block), max).len() >= 1,
        kept_last(all.push(block), max).last() == block,
        kept_last(all, max).len() < max ==> kept_last(all.push(block), max).drop_last()
            == kept_last(all, max),
        kept_last(all, max).len() == max ==> kept_last(all.push(block), max).drop_last()
            == kept_last(all, max).drop_first(),
{
    let before = kept_last(all, max);
    let after = kept_last(all.push(block), max);
    if before.len() < max {
        assert(after.drop_last() =~= before);
    } else {
        assert(after.drop_last() =~= before.drop_first());
    }
}

/// In a history whose heights go up one by one, the block `d` places before
/// the last stands `d` blocks below it.
pub proof fn lemma_heights_from_last(history: Seq<HostBlockView>, index: int)
    requires
        heights_sequential(history),
        0 <= index < history.len(),
    ensures
        history[index].height.revision_number == history.last().height.revision_number,
        history[index].height.revision_height + (history.len() - 1 - index)
            == history.last().height.revision_height,
    decreases history.len() - index,
{
    if index < history.len() - 1 {
        lemma_heights_from_last(history, index + 1);
        assert(follows(history, index));
    }
}

} // verus!
