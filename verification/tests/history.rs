use ibc_mocks::height::Height;
use ibc_mocks::host::{HostType, Validator};
use ibc_mocks::identifier::ChainId;
use ibc_mocks::mock::context::{MockContext, MockContextConfig};
use ibc_mocks::timestamp::{Duration, Timestamp};

struct Test {
    name: String,
    ctx: MockContext,
}

#[test]
fn test_history_manipulation() {
    let cv = 1; // The version to use for all chains.

    let mock_chain_id = ChainId::new(&format!("mockgaia-{cv}")).unwrap();

    let tests: Vec<Test> = vec![
        Test {
            name: "Empty history, small pruning window".to_string(),
            ctx: MockContext::new(
                mock_chain_id.clone(),
                HostType::Mock,
                2,
                Height::new(cv, 1).expect("Never fails"),
            ),
        },
        Test {
            name: "[Synthetic TM host] Empty history, small pruning window".to_string(),
            ctx: MockContext::new(
                mock_chain_id.clone(),
                HostType::SyntheticTendermint,
                2,
                Height::new(cv, 1).expect("Never fails"),
            ),
        },
        Test {
            name: "Large pruning window".to_string(),
            ctx: MockContext::new(
                mock_chain_id.clone(),
                HostType::Mock,
                30,
                Height::new(cv, 2).expect("Never fails"),
            ),
        },
        Test {
            name: "[Synthetic TM host] Large pruning window".to_string(),
            ctx: MockContext::new(
                mock_chain_id.clone(),
                HostType::SyntheticTendermint,
                30,
                Height::new(cv, 2).expect("Never fails"),
            ),
        },
        Test {
            name: "Small pruning window".to_string(),
            ctx: MockContext::new(
                mock_chain_id.clone(),
                HostType::Mock,
                3,
                Height::new(cv, 30).expect("Never fails"),
            ),
        },
        Test {
            name: "[Synthetic TM host] Small pruning window".to_string(),
            ctx: MockContext::new(
                mock_chain_id.clone(),
                HostType::SyntheticTendermint,
                3,
                Height::new(cv, 30).expect("Never fails"),
            ),
        },
        Test {
            name: "Small pruning window, small starting height".to_string(),
            ctx: MockContext::new(
                mock_chain_id.clone(),
                HostType::Mock,
                3,
                Height::new(cv, 2).expect("Never fails"),
            ),
        },
        Test {
            name: "[Synthetic TM host] Small pruning window, small starting height".to_string(),
            ctx: MockContext::new(
                mock_chain_id.clone(),
                HostType::SyntheticTendermint,
                3,
                Height::new(cv, 2).expect("Never fails"),
            ),
        },
        Test {
            name: "Large pruning window, large starting height".to_string(),
            ctx: MockContext::new(
                mock_chain_id.clone(),
                HostType::Mock,
                50,
                Height::new(cv, 2000).expect("Never fails"),
            ),
        },
        Test {
            name: "[Synthetic TM host] Large pruning window, large starting height".to_string(),
            ctx: MockContext::new(
                mock_chain_id,
                HostType::SyntheticTendermint,
                50,
                Height::new(cv, 2000).expect("Never fails"),
            ),
        },
    ];

    for mut test in tests {
        // All tests should yield a valid context after initialization.
        assert!(
            test.ctx.validate().is_ok(),
            "failed in test {} while validating context {:?}",
            test.name,
            test.ctx
        );

        let current_height = test.ctx.latest_height();

        // After advancing the chain's height, the context should still be valid.
        test.ctx.advance_host_chain_height();
        assert!(
            test.ctx.validate().is_ok(),
            "failed in test {} while validating context {:?}",
            test.name,
            test.ctx
        );

        let next_height = current_height.increment();
        assert_eq!(
            test.ctx.latest_height(),
            next_height,
            "failed while increasing height for context {:?}",
            test.ctx
        );

        assert_eq!(
            test.ctx
                .host_block(&current_height)
                .expect("Never fails")
                .height(),
            current_height,
            "failed while fetching height {:?} of context {:?}",
            current_height,
            test.ctx
        );
    }
}

fn fixed_config(max_history_size: u64, latest: u64) -> MockContextConfig {
    MockContextConfig {
        host_type: HostType::Mock,
        host_id: ChainId::new("mockgaia-0").unwrap(),
        block_time: Duration::from_secs(3),
        max_history_size,
        validator_set_history: None,
        latest_height: Height::new(0, latest).unwrap(),
        latest_timestamp: Timestamp::from_nanoseconds(1_000_000_000_000),
    }
}

#[test]
fn initial_history_counts_back_from_the_latest_block() {
    let ctx = MockContext::from(fixed_config(5, 10));
    assert_eq!(ctx.history.len(), 5);
    for (k, block) in ctx.history.iter().enumerate() {
        assert_eq!(block.height(), Height::new(0, 6 + k as u64).unwrap());
        assert_eq!(
            block.timestamp().nanoseconds(),
            1_000_000_000_000 - 3_000_000_000 * (4 - k as u64)
        );
    }
    assert_eq!(ctx.latest_height(), Height::new(0, 10).unwrap());
    assert_eq!(ctx.latest_timestamp().nanoseconds(), 1_000_000_000_000);
}

#[test]
fn initial_history_is_no_longer_than_the_chain() {
    let ctx = MockContext::from(fixed_config(30, 2));
    assert_eq!(ctx.history.len(), 2);
    assert_eq!(ctx.history[0].height(), Height::new(0, 1).unwrap());
    assert_eq!(ctx.history[1].height(), Height::new(0, 2).unwrap());
}

#[test]
fn advancing_fills_the_history_and_then_rotates_it() {
    let mut ctx = MockContext::from(fixed_config(3, 2));
    assert_eq!(ctx.history.len(), 2);

    ctx.advance_host_chain_height();
    assert_eq!(ctx.history.len(), 3);
    assert_eq!(ctx.latest_height(), Height::new(0, 3).unwrap());
    assert_eq!(ctx.history[0].height(), Height::new(0, 1).unwrap());

    ctx.advance_host_chain_height();
    assert_eq!(ctx.history.len(), 3);
    assert_eq!(ctx.latest_height(), Height::new(0, 4).unwrap());
    assert_eq!(ctx.history[0].height(), Height::new(0, 2).unwrap());
    assert_eq!(ctx.history[1].height(), Height::new(0, 3).unwrap());
    assert_eq!(
        ctx.latest_timestamp().nanoseconds(),
        1_000_000_000_000 + 2 * 3_000_000_000
    );
    assert!(ctx.validate().is_ok());

    // The block that was dropped is gone, the others can be fetched.
    assert!(ctx.host_block(&Height::new(0, 1).unwrap()).is_none());
    assert!(ctx.host_block(&Height::new(0, 5).unwrap()).is_none());
    assert_eq!(
        ctx.host_block(&Height::new(0, 2).unwrap()).unwrap().height(),
        Height::new(0, 2).unwrap()
    );
}

#[test]
fn history_never_exceeds_its_limit() {
    let mut ctx = MockContext::from(fixed_config(4, 1));
    for step in 0..20u64 {
        assert!(ctx.history.len() as u64 <= ctx.max_history_size);
        for i in 1..ctx.history.len() {
            assert_eq!(
                ctx.history[i].height(),
                ctx.history[i - 1].height().increment()
            );
        }
        assert_eq!(ctx.latest_height(), Height::new(0, 1 + step).unwrap());
        ctx.advance_host_chain_height();
    }
}

#[test]
fn validate_names_what_is_wrong() {
    let mut ctx = MockContext::from(fixed_config(3, 3));
    ctx.max_history_size = 2;
    assert_eq!(ctx.validate(), Err("too many entries".to_string()));

    let mut ctx = MockContext::from(fixed_config(3, 3));
    ctx.history.remove(1);
    assert_eq!(
        ctx.validate(),
        Err("headers in history not sequential".to_string())
    );
}

#[test]
fn with_height_moves_the_chain_to_the_target() {
    let ctx = MockContext::from(fixed_config(3, 3));
    let ctx = ctx.with_height(Height::new(0, 9).unwrap());
    assert_eq!(ctx.latest_height(), Height::new(0, 9).unwrap());
    assert_eq!(ctx.history.len(), 3);
    assert_eq!(
        ctx.latest_timestamp().nanoseconds(),
        1_000_000_000_000 + 6 * 3_000_000_000
    );
    let same = ctx.with_height(Height::new(0, 9).unwrap());
    assert_eq!(same.latest_height(), Height::new(0, 9).unwrap());
}

#[test]
fn default_context_stands_at_height_five() {
    let ctx = MockContext::default();
    assert_eq!(ctx.latest_height(), Height::new(0, 5).unwrap());
    assert_eq!(ctx.history.len(), 5);
    assert_eq!(ctx.max_history_size, 5);
    assert!(ctx.validate().is_ok());
    assert!(ctx.events.is_empty());
    assert!(ctx.logs.is_empty());
    let latest = ctx.query_latest_header().unwrap();
    assert_eq!(latest.height(), Height::new(0, 5).unwrap());
}

#[test]
fn validator_history_gives_each_block_its_validators() {
    let sets: Vec<Vec<Validator>> = vec![
        vec![Validator::new("a", 10)],
        vec![Validator::new("b", 20), Validator::new("c", 30)],
        vec![Validator::new("d", 40)],
    ];
    let ctx = MockContext::new_with_validator_history(
        ChainId::new("mockgaia-1").unwrap(),
        HostType::SyntheticTendermint,
        &sets,
        Height::new(1, 7).unwrap(),
    );
    assert_eq!(ctx.history.len(), 2);
    assert_eq!(ctx.max_history_size, 2);
    assert_eq!(ctx.latest_height(), Height::new(1, 7).unwrap());
    match &ctx.history[0] {
        ibc_mocks::host::HostBlock::SyntheticTendermint(block) => {
            assert_eq!(block.validators.len(), 1);
            assert_eq!(block.validators[0].name, "a");
            assert_eq!(block.next_validators.len(), 2);
            assert_eq!(block.next_validators[1].voting_power, 30);
        }
        _ => panic!("a made-up Tendermint block was asked for"),
    }
    match &ctx.history[1] {
        ibc_mocks::host::HostBlock::SyntheticTendermint(block) => {
            assert_eq!(block.validators[0].name, "b");
            assert_eq!(block.next_validators[0].name, "d");
            // The hash of a block's next validators is the hash of the next
            // block's validators.
            match &ctx.history[0] {
                ibc_mocks::host::HostBlock::SyntheticTendermint(before) => {
                    assert_eq!(before.next_validators_hash, block.validators_hash);
                    assert_ne!(before.validators_hash, block.validators_hash);
                }
                _ => panic!("a made-up Tendermint block was asked for"),
            }
        }
        _ => panic!("a made-up Tendermint block was asked for"),
    }
}

#[test]
fn clone_holds_the_same() {
    let ctx = MockContext::from(fixed_config(3, 3));
    let copy = ctx.clone();
    assert_eq!(copy.latest_height(), ctx.latest_height());
    assert_eq!(copy.history.len(), ctx.history.len());
    assert_eq!(copy.max_history_size, ctx.max_history_size);
    assert_eq!(copy.latest_timestamp(), ctx.latest_timestamp());
}

#[test]
fn a_new_context_can_move_on_at_once() {
    let mut ctx = MockContext::new(
        ChainId::new("mockgaia-1").unwrap(),
        HostType::Mock,
        3,
        Height::new(1, 30).unwrap(),
    );
    assert!(ctx.check_can_advance());
    let before: Vec<u64> = ctx
        .history
        .iter()
        .map(|b| b.timestamp().nanoseconds())
        .collect();
    assert_eq!(before.len(), 3);
    // Blocks lie three seconds apart, counted back from the latest.
    assert_eq!(before[1] - before[0], 3_000_000_000);
    assert_eq!(before[2] - before[1], 3_000_000_000);
    ctx.advance_host_chain_height();
    assert_eq!(ctx.latest_height(), Height::new(1, 31).unwrap());
    assert_eq!(ctx.history.len(), 3);
    assert_eq!(ctx.latest_timestamp().nanoseconds(), before[2] + 3_000_000_000);
    let heights: Vec<Height> = ctx.history.iter().map(|b| b.height()).collect();
    assert_eq!(
        heights,
        vec![
            Height::new(1, 29).unwrap(),
            Height::new(1, 30).unwrap(),
            Height::new(1, 31).unwrap()
        ]
    );
}

#[test]
fn default_context_is_the_chain_mockgaia() {
    let ctx = MockContext::default();
    assert_eq!(ctx.host_chain_id, ChainId::new("mockgaia-0").unwrap());
    assert_eq!(ctx.host_chain_type, HostType::Mock);
    assert_eq!(ctx.block_time, Duration::from_secs(3));
    assert!(ctx.check_can_advance());
    let first = ctx.history[0].timestamp().nanoseconds();
    let last = ctx.latest_timestamp().nanoseconds();
    assert_eq!(last - first, 4 * 3_000_000_000);
}

#[test]
fn with_height_keeps_the_latest_blocks_in_their_places() {
    let ctx = MockContext::default();
    let old: Vec<(Height, u64)> = ctx
        .history
        .iter()
        .map(|b| (b.height(), b.timestamp().nanoseconds()))
        .collect();
    // A target that is the latest height changes nothing.
    let ctx = ctx.with_height(Height::new(0, 5).unwrap());
    let same: Vec<(Height, u64)> = ctx
        .history
        .iter()
        .map(|b| (b.height(), b.timestamp().nanoseconds()))
        .collect();
    assert_eq!(same, old);

    let ctx = ctx.with_height(Height::new(0, 6).unwrap());
    let moved: Vec<(Height, u64)> = ctx
        .history
        .iter()
        .map(|b| (b.height(), b.timestamp().nanoseconds()))
        .collect();
    assert_eq!(moved.len(), 5);
    assert_eq!(&moved[..4], &old[1..]);
    assert_eq!(
        moved[4],
        (Height::new(0, 6).unwrap(), old[4].1 + 3_000_000_000)
    );

    // A history that is not full grows before it drops anything.
    let ctx = MockContext::from(fixed_config(5, 2)).with_height(Height::new(0, 4).unwrap());
    let heights: Vec<u64> = ctx
        .history
        .iter()
        .map(|b| b.height().revision_height())
        .collect();
    assert_eq!(heights, vec![1, 2, 3, 4]);
    let ctx = ctx.with_height(Height::new(0, 7).unwrap());
    let heights: Vec<u64> = ctx
        .history
        .iter()
        .map(|b| b.height().revision_height())
        .collect();
    assert_eq!(heights, vec![3, 4, 5, 6, 7]);
}

#[test]
fn host_block_goes_by_the_height_within_the_revision() {
    let ctx = MockContext::new(
        ChainId::new("mockgaia-1").unwrap(),
        HostType::Mock,
        3,
        Height::new(1, 30).unwrap(),
    );
    assert_eq!(
        ctx.host_block(&Height::new(1, 29).unwrap())
            .unwrap()
            .height(),
        Height::new(1, 29).unwrap()
    );
    // The revision of the target is not looked at.
    assert_eq!(
        ctx.host_block(&Height::new(7, 29).unwrap())
            .unwrap()
            .height(),
        Height::new(1, 29).unwrap()
    );
    assert!(ctx.host_block(&Height::new(1, 27).unwrap()).is_none());
    assert!(ctx.host_block(&Height::new(1, 31).unwrap()).is_none());
}

#[test]
fn the_clock_is_fitted_to_the_history_and_to_the_next_block() {
    let block: u64 = 3_000_000_000;
    let top = u64::MAX - block;
    // A reading from which five blocks can be counted back, and one on.
    let now = Timestamp::from_nanoseconds(1_700_000_000_000_000_000);
    assert_eq!(MockContext::fit_clock(now, 5), now);
    // A clock that stands too early for the history.
    assert_eq!(
        MockContext::fit_clock(Timestamp::from_nanoseconds(7), 5),
        Timestamp::from_nanoseconds(4 * block)
    );
    assert_eq!(
        MockContext::fit_clock(Timestamp::from_nanoseconds(0), 1),
        Timestamp::from_nanoseconds(0)
    );
    // A reading is taken as it is as long as the next block's time fits.
    assert_eq!(
        MockContext::fit_clock(Timestamp::from_nanoseconds(top), 5),
        Timestamp::from_nanoseconds(top)
    );
    assert_eq!(
        MockContext::fit_clock(Timestamp::from_nanoseconds(top - 1), 5),
        Timestamp::from_nanoseconds(top - 1)
    );
    // A clock that stands too late for the next block.
    assert_eq!(
        MockContext::fit_clock(Timestamp::from_nanoseconds(u64::MAX), 5),
        Timestamp::from_nanoseconds(top)
    );
    assert_eq!(
        MockContext::fit_clock(Timestamp::from_nanoseconds(top + 1), 5),
        Timestamp::from_nanoseconds(top)
    );
}

#[test]
fn a_stand_in_host_asks_nothing_of_its_validators() {
    // Names that no key can be made from: empty, and longer than 32 bytes.
    let unusable: Vec<Vec<Validator>> = vec![
        vec![Validator::new("", 1)],
        vec![Validator::new("abcdefghijklmnopqrstuvwxyz0123456789", u64::MAX)],
        vec![Validator::new("", u64::MAX), Validator::new("", u64::MAX)],
    ];
    let ctx = MockContext::new_with_validator_history(
        ChainId::new("mockgaia-1").unwrap(),
        HostType::Mock,
        &unusable,
        Height::new(1, 7).unwrap(),
    );
    assert_eq!(ctx.history.len(), 2);
    assert_eq!(ctx.max_history_size, 2);
    assert_eq!(ctx.latest_height(), Height::new(1, 7).unwrap());
    assert!(ctx.validate().is_ok());
    assert!(matches!(ctx.history[0], ibc_mocks::host::HostBlock::Mock(_)));

    let mut config = fixed_config(2, 9);
    config.validator_set_history = Some(vec![
        vec![Validator::new("", 1)],
        vec![Validator::new("", 1)],
        vec![Validator::new("", 1)],
    ]);
    assert!(config.is_valid());
    let ctx = MockContext::from(config);
    assert_eq!(ctx.history.len(), 2);
    assert_eq!(ctx.latest_height(), Height::new(0, 9).unwrap());

    // A Tendermint-like host needs usable validators for its blocks.
    let mut config = fixed_config(2, 9);
    config.host_type = HostType::SyntheticTendermint;
    config.validator_set_history = Some(vec![
        vec![Validator::new("a", 1)],
        vec![Validator::new("", 1)],
        vec![Validator::new("c", 1)],
    ]);
    assert!(!config.is_valid());
}

#[test]
fn lists_of_validators_that_no_block_uses_are_not_looked_at() {
    // Two blocks use the lists at the places zero, one and two.
    let mut config = fixed_config(2, 9);
    config.host_type = HostType::SyntheticTendermint;
    config.validator_set_history = Some(vec![
        vec![Validator::new("a", 1)],
        vec![Validator::new("b", 2)],
        vec![Validator::new("c", 3)],
        vec![Validator::new("", 4)],
        vec![Validator::new("abcdefghijklmnopqrstuvwxyz0123456789", 5)],
    ]);
    assert!(config.is_valid());
    let ctx = MockContext::from(config);
    assert_eq!(ctx.history.len(), 2);
    match &ctx.history[1] {
        ibc_mocks::host::HostBlock::SyntheticTendermint(block) => {
            assert_eq!(block.validators[0].name, "b");
            assert_eq!(block.next_validators[0].name, "c");
        }
        _ => panic!("a made-up Tendermint block was asked for"),
    }

    // The list of the block after the last is used, and must be usable.
    let mut config = fixed_config(2, 9);
    config.host_type = HostType::SyntheticTendermint;
    config.validator_set_history = Some(vec![
        vec![Validator::new("a", 1)],
        vec![Validator::new("b", 2)],
        vec![Validator::new("", 3)],
    ]);
    assert!(!config.is_valid());

    // One list more than there are blocks is needed, whatever the host.
    let mut config = fixed_config(2, 9);
    config.validator_set_history = Some(vec![
        vec![Validator::new("a", 1)],
        vec![Validator::new("b", 2)],
    ]);
    assert!(!config.is_valid());
}
