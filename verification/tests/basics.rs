use ibc_mocks::channel::Order;
use ibc_mocks::commitment::{
    build_commitment_preimage, compute_ack_commitment, compute_packet_commitment, digests_equal,
    push_be_bytes, PacketCommitment, Receipt, TimeoutHeight,
};
use ibc_mocks::connection::{
    any_supports, get_compatible_versions, pick_version, Version,
};
use ibc_mocks::error::ConnectionError;
use ibc_mocks::height::{Height, HeightError};
use ibc_mocks::host::{
    validator_set_hash, validators_usable, HostBlock, HostType, Validator,
    MAX_TOTAL_VOTING_POWER,
};
use ibc_mocks::identifier::{
    ChainId, ChannelId, ClientId, ClientType, IdentifierError, PortId, Sequence,
};
use ibc_mocks::path::{ChannelEndPath, PacketPath};
use ibc_mocks::table::Table;
use ibc_mocks::timestamp::{Duration, Expiry, Timestamp, TimestampError};
use sha2::Digest;
use tendermint_testgen::Generator;

#[test]
fn heights_are_ordered_by_revision_first() {
    let a = Height::new(0, 9).unwrap();
    let b = Height::new(1, 1).unwrap();
    let c = Height::new(1, 2).unwrap();
    assert!(a.lt(&b) && b.lt(&c) && a.lt(&c));
    assert!(!b.lt(&a) && !a.lt(&a));
    assert!(a.le(&a) && a.ge(&a) && c.gt(&a));
    assert_eq!(Height::new(3, 0), Err(HeightError::ZeroHeight));
    assert_eq!(a.increment(), Height::new(0, 10).unwrap());
    assert_eq!(a.add(5), Height::new(0, 14).unwrap());
    assert_eq!(a.sub(8), Ok(Height::new(0, 1).unwrap()));
    assert_eq!(a.sub(9), Err(HeightError::InvalidDecrement));
    assert_eq!(Height::new(0, 1).unwrap().decrement(), Err(HeightError::InvalidDecrement));
    assert_eq!(Height::min(4), Height::new(4, 1).unwrap());
}

#[test]
fn timestamps_add_subtract_and_expire() {
    let t = Timestamp::from_nanoseconds(10);
    assert_eq!(t.add(Duration::from_nanos(5)), Ok(Timestamp::from_nanoseconds(15)));
    assert_eq!(
        Timestamp::from_nanoseconds(u64::MAX).add(Duration::from_nanos(1)),
        Err(TimestampError::Overflow)
    );
    assert_eq!(t.sub(Duration::from_nanos(10)), Ok(Timestamp::from_nanoseconds(0)));
    assert_eq!(t.sub(Duration::from_nanos(11)), Err(TimestampError::Underflow));
    assert_eq!(
        t.duration_since(&Timestamp::from_nanoseconds(4)),
        Some(Duration::from_nanos(6))
    );
    assert_eq!(Timestamp::from_nanoseconds(4).duration_since(&t), None);
    assert_eq!(t.duration_since(&Timestamp::none()), None);
    assert_eq!(
        t.check_expiry(&Timestamp::from_nanoseconds(9)),
        Expiry::Expired
    );
    assert_eq!(
        t.check_expiry(&Timestamp::from_nanoseconds(10)),
        Expiry::NotExpired
    );
    assert_eq!(t.check_expiry(&Timestamp::none()), Expiry::InvalidTimestamp);
    assert!(!Timestamp::none().is_set() && t.is_set());
    assert!(t.after(&Timestamp::from_nanoseconds(9)) && !t.after(&t));
    assert_eq!(Duration::from_secs(3).as_nanos(), 3_000_000_000);
    assert_eq!(Duration::from_millis(3000).as_nanos(), 3_000_000_000);
    assert_eq!(Duration::zero().as_nanos(), 0);
}

#[test]
fn the_clock_reads_a_time_of_this_century() {
    // The first of January 2020 and 2100, in nanoseconds.
    let now = Timestamp::now().nanoseconds();
    assert!(now > 1_577_836_800_000_000_000);
    assert!(now < 4_102_444_800_000_000_000);
}

#[test]
fn timeout_heights_expire_strictly_after_their_limit() {
    let limit = TimeoutHeight::from(Height::new(0, 7).unwrap());
    assert!(!limit.has_expired(Height::new(0, 6).unwrap()));
    assert!(!limit.has_expired(Height::new(0, 7).unwrap()));
    assert!(limit.has_expired(Height::new(0, 8).unwrap()));
    assert!(limit.has_expired(Height::new(1, 1).unwrap()));
    assert!(!TimeoutHeight::no_timeout().has_expired(Height::new(9, 9).unwrap()));
    assert!(limit.is_set() && !TimeoutHeight::no_timeout().is_set());
}

#[test]
fn acknowledgement_commitment_is_the_sha256_digest() {
    // SHA-256 of "abc".
    let expected: [u8; 32] = [
        0xba, 0x78, 0x16, 0xbf, 0x8f, 0x01, 0xcf, 0xea, 0x41, 0x41, 0x40, 0xde, 0x5d, 0xae, 0x22,
        0x23, 0xb0, 0x03, 0x61, 0xa3, 0x96, 0x17, 0x7a, 0x9c, 0xb4, 0x10, 0xff, 0x61, 0xf2, 0x00,
        0x15, 0xad,
    ];
    assert_eq!(compute_ack_commitment(&b"abc".to_vec()).digest, expected);
    // SHA-256 of the empty string.
    let empty: [u8; 32] = [
        0xe3, 0xb0, 0xc4, 0x42, 0x98, 0xfc, 0x1c, 0x14, 0x9a, 0xfb, 0xf4, 0xc8, 0x99, 0x6f, 0xb9,
        0x24, 0x27, 0xae, 0x41, 0xe4, 0x64, 0x9b, 0x93, 0x4c, 0xa4, 0x95, 0x99, 0x1b, 0x78, 0x52,
        0xb8, 0x55,
    ];
    assert_eq!(compute_ack_commitment(&Vec::new()).digest, empty);
}

#[test]
fn packet_commitment_hashes_timeouts_and_the_digest_of_the_data() {
    let data = vec![1u8, 2, 3];
    let timeout_height = TimeoutHeight::from(Height::new(2, 0x0102).unwrap());
    let timeout_timestamp = Timestamp::from_nanoseconds(0x0a0b_0c0d_0e0f_1011);

    let data_digest: [u8; 32] = sha2::Sha256::digest(&data).into();
    let mut preimage = vec![0x0a, 0x0b, 0x0c, 0x0d, 0x0e, 0x0f, 0x10, 0x11];
    preimage.extend_from_slice(&[0, 0, 0, 0, 0, 0, 0, 2]);
    preimage.extend_from_slice(&[0, 0, 0, 0, 0, 0, 1, 2]);
    preimage.extend_from_slice(&data_digest);
    assert_eq!(
        build_commitment_preimage(&data_digest, &timeout_height, &timeout_timestamp),
        preimage
    );

    let expected: [u8; 32] = sha2::Sha256::digest(&preimage).into();
    let commitment = compute_packet_commitment(&data, &timeout_height, &timeout_timestamp);
    assert_eq!(commitment.digest, expected);

    // Without a timeout height, zeros stand in its place.
    let mut preimage = vec![0u8; 8];
    preimage.extend_from_slice(&[0u8; 16]);
    preimage.extend_from_slice(&data_digest);
    assert_eq!(
        build_commitment_preimage(
            &data_digest,
            &TimeoutHeight::no_timeout(),
            &Timestamp::none()
        ),
        preimage
    );

    // Other data, another commitment.
    let other = compute_packet_commitment(&vec![1u8, 2, 4], &timeout_height, &timeout_timestamp);
    assert!(!commitment.same(&other));
    assert!(commitment.same(&PacketCommitment::new(expected)));
    assert!(digests_equal(&expected, &commitment.digest));
}

#[test]
fn numbers_are_laid_out_most_significant_byte_first() {
    let mut out = vec![9u8];
    push_be_bytes(&mut out, 0x0102_0304_0506_0708);
    assert_eq!(out, vec![9, 1, 2, 3, 4, 5, 6, 7, 8]);
    push_be_bytes(&mut out, u64::MAX);
    assert_eq!(out.len(), 17);
    assert!(out[9..].iter().all(|b| *b == 0xff));
}

#[test]
fn versions_are_picked_from_what_both_sides_support() {
    let supported = get_compatible_versions();
    assert_eq!(supported, vec![Version::default()]);
    assert_eq!(
        Version::default(),
        Version {
            identifier: 1,
            ordered: true,
            unordered: true
        }
    );

    let only_ordered = Version {
        identifier: 1,
        ordered: true,
        unordered: false,
    };
    let other_number = Version {
        identifier: 2,
        ordered: true,
        unordered: true,
    };
    let nothing = Version {
        identifier: 1,
        ordered: false,
        unordered: false,
    };
    assert_eq!(
        pick_version(&supported, &vec![other_number, only_ordered]),
        Ok(only_ordered)
    );
    assert_eq!(
        pick_version(&supported, &vec![other_number, nothing]),
        Err(ConnectionError::VersionMismatch)
    );
    assert_eq!(
        pick_version(&supported, &Vec::new()),
        Err(ConnectionError::VersionMismatch)
    );
    // The first supported version that fits decides, not the first proposed.
    assert_eq!(
        pick_version(&vec![other_number, Version::default()], &vec![Version::default(), other_number]),
        Ok(other_number)
    );
    assert!(any_supports(&supported, &only_ordered));
    assert!(!any_supports(&supported, &other_number));
    assert!(!any_supports(&supported, &nothing));
    assert!(!any_supports(&vec![only_ordered], &Version::default()));
}

#[test]
fn a_table_is_a_partial_function() {
    let mut table: Table<PacketPath, Receipt> = Table::new();
    let path = |port: &str, chan: u64, seq: u64| {
        PacketPath::new(&PortId::new(port.to_string()), &ChannelId::new(chan), seq.into())
    };
    assert_eq!(table.len(), 0);
    assert!(!table.contains_key(&path("transfer", 0, 1)));
    assert_eq!(table.get(&path("transfer", 0, 1)), None);
    assert_eq!(table.remove(&path("transfer", 0, 1)), None);

    table.insert(path("transfer", 0, 1), Receipt::Received);
    table.insert(path("transfer", 0, 2), Receipt::Received);
    table.insert(path("transfer", 1, 1), Receipt::Received);
    table.insert(path("other", 0, 1), Receipt::Received);
    // A key is held once.
    table.insert(path("transfer", 0, 1), Receipt::Received);
    assert_eq!(table.len(), 4);
    assert!(table.contains_key(&path("transfer", 0, 2)));
    assert!(!table.contains_key(&path("transfer", 2, 1)));
    assert!(!table.contains_key(&path("transfe", 0, 1)));

    assert_eq!(table.remove(&path("transfer", 0, 2)), Some(Receipt::Received));
    assert_eq!(table.remove(&path("transfer", 0, 2)), None);
    assert_eq!(table.len(), 3);
    assert_eq!(
        table.keys(),
        vec![path("transfer", 0, 1), path("transfer", 1, 1), path("other", 0, 1)]
    );
    let copy = table.clone();
    assert_eq!(copy.keys(), table.keys());
    let (first, _) = table.entry_at(0);
    assert_eq!(*first, path("transfer", 0, 1));
}

#[test]
fn a_table_replaces_the_value_of_a_key() {
    let mut table: Table<ChannelEndPath, Sequence> = Table::new();
    let key = ChannelEndPath::new(&PortId::transfer(), &ChannelId::default());
    table.insert(key.clone(), 1.into());
    table.insert(key.clone(), 5.into());
    assert_eq!(table.len(), 1);
    assert_eq!(table.get(&key), Some(&Sequence::from(5)));
    assert_eq!(table.remove(&key), Some(Sequence::from(5)));
    assert_eq!(table.get(&key), None);
}

#[test]
fn identifiers_have_their_defaults() {
    assert_eq!(ClientId::default(), ClientId::new(ClientType::Tendermint, 0));
    assert_eq!(ClientType::Mock.as_str(), "9999-mock");
    assert_eq!(ClientType::Tendermint.as_str(), "07-tendermint");
    assert_eq!(PortId::transfer().as_str(), "transfer");
    assert_eq!(PortId::default().as_str(), "defaultPort");
    assert_eq!(ChannelId::default(), ChannelId::new(0));
    assert_eq!(Sequence::from(4).increment(), Sequence::new(5));
    assert_eq!(Sequence::new(5).value(), 5);
    let chain = ChainId::new("mockgaia-3").unwrap();
    assert_eq!(chain.as_str(), "mockgaia-3");
    assert_eq!(chain.revision_number(), 3);
    assert_eq!(Order::default(), Order::Unordered);
}

fn testgen_hash(validators: &[(&str, u64)]) -> Vec<u8> {
    let vals: Vec<tendermint_testgen::Validator> = validators
        .iter()
        .map(|(name, power)| tendermint_testgen::Validator::new(name).voting_power(*power))
        .collect();
    let set = tendermint_testgen::ValidatorSet {
        validators: Some(vals),
    };
    set.generate().unwrap().hash().as_bytes().to_vec()
}

#[test]
fn validator_set_hash_is_the_hash_that_tendermint_computes() {
    let validators = vec![Validator::new("1", 50), Validator::new("2", 50)];
    let hash = validator_set_hash(&validators).unwrap();
    assert_eq!(hash.to_vec(), testgen_hash(&[("1", 50), ("2", 50)]));
    assert_ne!(hash, [0u8; 32]);

    // The hash tells sets apart, by name and by power.
    let renamed = vec![Validator::new("1", 50), Validator::new("3", 50)];
    assert_ne!(validator_set_hash(&renamed).unwrap(), hash);
    assert_eq!(
        validator_set_hash(&renamed).unwrap().to_vec(),
        testgen_hash(&[("1", 50), ("3", 50)])
    );
    let repowered = vec![Validator::new("1", 50), Validator::new("2", 51)];
    assert_ne!(validator_set_hash(&repowered).unwrap(), hash);

    // No validators at all make a set too.
    assert_eq!(validator_set_hash(&[]).unwrap().to_vec(), testgen_hash(&[]));
}

#[test]
fn validators_need_usable_names_and_a_bounded_power() {
    assert!(validators_usable(&[Validator::new("a", 0)]));
    assert!(validators_usable(&[Validator::new(
        "abcdefghijklmnopqrstuvwxyz012345",
        1
    )]));
    assert!(!validators_usable(&[Validator::new(
        "abcdefghijklmnopqrstuvwxyz0123456",
        1
    )]));
    assert!(!validators_usable(&[Validator::new("", 1)]));
    // A name counts by its bytes, not by its characters.
    assert!(validators_usable(&[Validator::new("bäh", 1)]));
    assert!(validators_usable(&[Validator::new(
        "ääääääääääääääää",
        1
    )]));
    assert!(!validators_usable(&[Validator::new(
        "ääääääääääääääääa",
        1
    )]));
    assert_eq!(
        validator_set_hash(&[Validator::new("bäh", 1)])
            .unwrap()
            .to_vec(),
        testgen_hash(&[("bäh", 1)])
    );
    assert!(validators_usable(&[
        Validator::new("a", MAX_TOTAL_VOTING_POWER - 1),
        Validator::new("b", 1)
    ]));
    assert!(!validators_usable(&[
        Validator::new("a", MAX_TOTAL_VOTING_POWER),
        Validator::new("b", 1)
    ]));
    assert!(!validators_usable(&[Validator::new("a", u64::MAX), Validator::new("b", u64::MAX)]));
    assert_eq!(validator_set_hash(&[Validator::new("", 1)]), None);
    assert_eq!(MAX_TOTAL_VOTING_POWER, (i64::MAX / 8) as u64);
}

#[test]
fn generated_blocks_stand_where_they_are_asked_to() {
    let chain = ChainId::new("mockgaia-4").unwrap();
    let at = Timestamp::from_nanoseconds(77);
    let block = HostBlock::generate_block(chain.clone(), HostType::Mock, 12, at);
    assert_eq!(block.height(), Height::new(4, 12).unwrap());
    assert_eq!(block.timestamp(), at);
    assert!(matches!(block, HostBlock::Mock(_)));

    let block = HostBlock::generate_block(chain.clone(), HostType::SyntheticTendermint, 12, at);
    assert_eq!(block.height(), Height::new(4, 12).unwrap());
    assert_eq!(block.timestamp(), at);
    match &block {
        HostBlock::SyntheticTendermint(b) => {
            assert_eq!(b.chain_id, chain);
            assert_eq!(b.validators, vec![Validator::new("1", 50), Validator::new("2", 50)]);
            assert_eq!(b.validators_hash.to_vec(), testgen_hash(&[("1", 50), ("2", 50)]));
            assert_eq!(b.next_validators_hash, b.validators_hash);
        }
        _ => panic!("a made-up Tendermint block was asked for"),
    }
    let copy = block.clone();
    assert_eq!(copy, block);
    assert_eq!(block.consensus_state().timestamp(), at);
    assert_eq!(block.header().height(), Height::new(4, 12).unwrap());
}

#[test]
fn a_chain_tells_its_revision_in_its_name() {
    use_chain("mockgaia-0", 0);
    use_chain("mockgaia-1", 1);
    use_chain("cosmoshub-4", 4);
    use_chain("a-b-17", 17);
    use_chain("chain-18446744073709551615", u64::MAX);
    // Names that end in no number are in revision zero.
    use_chain("mockgaia", 0);
    use_chain("mockgaia-", 0);
    use_chain("mockgaia-x1", 0);
    use_chain("mockgaia-1x", 0);
    use_chain("mockgaia-01", 0);
    use_chain("mockgaia-00", 0);
    use_chain("mockgaia- 1", 0);
    use_chain("mockgaia-+1", 0);
    use_chain("12", 0);
    use_chain("chain-18446744073709551616", 0);
    use_chain("chain-99999999999999999999999", 0);
    use_chain("käse-7", 7);
    use_chain("chain-ä", 0);
    assert_eq!(ChainId::new(""), Err(IdentifierError::Empty));
    assert_eq!(
        ChainId::from_parts("mockgaia-1", 9),
        ChainId {
            name: "mockgaia-1".to_string(),
            revision_number: 9
        }
    );
}

fn use_chain(name: &str, revision: u64) {
    let chain = ChainId::new(name).unwrap();
    assert_eq!(chain.as_str(), name);
    assert_eq!(chain.revision_number(), revision, "{name}");
}
