use ibc_mocks::any::{
    decode_mock_client, decode_tm_client, encode_mock_client, read_be, Any,
    MOCK_CLIENT_STATE_TYPE_URL, MOCK_CONSENSUS_STATE_TYPE_URL, TENDERMINT_CLIENT_STATE_TYPE_URL,
    TENDERMINT_CONSENSUS_STATE_TYPE_URL,
};
use ibc_mocks::client::{
    AnyClientState, AnyConsensusState, CommitmentRoot, MockClientState, MockConsensusState,
    MockHeader, TmClientState, TmConsensusState,
};
use ibc_mocks::error::ClientError;
use ibc_mocks::height::Height;
use ibc_mocks::identifier::ChainId;
use ibc_mocks::timestamp::{Duration, Timestamp};

fn mock_state(frozen: Option<Height>) -> MockClientState {
    MockClientState {
        header: MockHeader::new(Height::new(3, 0x0101).unwrap())
            .with_timestamp(Timestamp::from_nanoseconds(0x0202)),
        frozen_height: frozen,
    }
}

fn tm_state(name: &str) -> TmClientState {
    TmClientState {
        chain_id: ChainId::from_parts(name, 4),
        trusting_period: Duration::from_secs(64000),
        max_clock_drift: Duration::from_millis(3000),
        latest_height: Height::new(4, 77).unwrap(),
        frozen_height: Some(Height::new(4, 70).unwrap()),
    }
}

#[test]
fn mock_client_state_is_laid_out_field_by_field() {
    let bytes = encode_mock_client(&mock_state(None));
    let mut expected = vec![0, 0, 0, 0, 0, 0, 0, 3];
    expected.extend_from_slice(&[0, 0, 0, 0, 0, 0, 1, 1]);
    expected.extend_from_slice(&[0, 0, 0, 0, 0, 0, 2, 2]);
    expected.extend_from_slice(&[0u8; 17]);
    assert_eq!(bytes, expected);
    assert_eq!(read_be(&bytes, 8), 0x0101);

    let bytes = encode_mock_client(&mock_state(Some(Height::new(3, 9).unwrap())));
    assert_eq!(bytes.len(), 41);
    assert_eq!(bytes[24], 1);
    assert_eq!(&bytes[25..], &[0, 0, 0, 0, 0, 0, 0, 3, 0, 0, 0, 0, 0, 0, 0, 9]);
}

#[test]
fn client_states_come_back_from_their_tagged_values() {
    for state in [
        AnyClientState::Mock(mock_state(None)),
        AnyClientState::Mock(mock_state(Some(Height::new(3, 9).unwrap()))),
        AnyClientState::Tendermint(tm_state("mockgaia-4")),
        AnyClientState::Tendermint(tm_state("Ünïcödé-4")),
        AnyClientState::Tendermint(tm_state("")),
    ] {
        let raw = state.clone().into_any();
        match &state {
            AnyClientState::Mock(_) => assert_eq!(raw.type_url, MOCK_CLIENT_STATE_TYPE_URL),
            AnyClientState::Tendermint(_) => {
                assert_eq!(raw.type_url, TENDERMINT_CLIENT_STATE_TYPE_URL)
            }
        }
        assert_eq!(AnyClientState::try_from(raw), Ok(state.clone()));
        let raw: Any = state.clone().into();
        assert_eq!(AnyClientState::try_from(raw), Ok(state));
    }
}

#[test]
fn consensus_states_come_back_from_their_tagged_values() {
    let mut root = [0u8; 32];
    root[0] = 7;
    root[31] = 9;
    for state in [
        AnyConsensusState::Mock(MockConsensusState::new(mock_state(None).header)),
        AnyConsensusState::Tendermint(TmConsensusState {
            timestamp: Timestamp::from_nanoseconds(5),
            root: CommitmentRoot { hash: root },
            next_validators_hash: [3u8; 32],
        }),
    ] {
        let raw = state.into_any();
        match &state {
            AnyConsensusState::Mock(_) => {
                assert_eq!(raw.type_url, MOCK_CONSENSUS_STATE_TYPE_URL);
                assert_eq!(raw.value.len(), 24);
            }
            AnyConsensusState::Tendermint(_) => {
                assert_eq!(raw.type_url, TENDERMINT_CONSENSUS_STATE_TYPE_URL);
                assert_eq!(raw.value.len(), 72);
                assert_eq!(raw.value[8], 7);
                assert_eq!(raw.value[39], 9);
                assert_eq!(raw.value[40], 3);
            }
        }
        assert_eq!(AnyConsensusState::try_from(raw), Ok(state));
    }
}

#[test]
fn an_unknown_type_tag_is_turned_down() {
    let raw = |type_url: &str| Any {
        type_url: type_url.to_string(),
        value: encode_mock_client(&mock_state(None)),
    };
    assert_eq!(
        AnyClientState::try_from(raw("/ibc.lightclients.solomachine.v3.ClientState")),
        Err(ClientError::UnknownClientType)
    );
    assert_eq!(
        AnyClientState::try_from(raw("")),
        Err(ClientError::UnknownClientType)
    );
    // The tag of a consensus state is no tag of a client state.
    assert_eq!(
        AnyClientState::try_from(raw(MOCK_CONSENSUS_STATE_TYPE_URL)),
        Err(ClientError::UnknownClientType)
    );
    assert_eq!(
        AnyConsensusState::try_from(raw(MOCK_CLIENT_STATE_TYPE_URL)),
        Err(ClientError::UnknownClientType)
    );
    assert!(AnyClientState::try_from(raw(MOCK_CLIENT_STATE_TYPE_URL)).is_ok());
}

#[test]
fn bytes_that_spell_no_state_are_turned_down() {
    let mut bytes = encode_mock_client(&mock_state(None));
    bytes.push(0);
    assert_eq!(decode_mock_client(&bytes), Err(ClientError::MalformedState));
    bytes.pop();
    bytes.pop();
    assert_eq!(decode_mock_client(&bytes), Err(ClientError::MalformedState));
    let mut bytes = encode_mock_client(&mock_state(None));
    bytes[24] = 2;
    assert_eq!(decode_mock_client(&bytes), Err(ClientError::MalformedState));
    assert_eq!(
        AnyClientState::try_from(Any {
            type_url: MOCK_CLIENT_STATE_TYPE_URL.to_string(),
            value: bytes
        }),
        Err(ClientError::MalformedState)
    );
    assert_eq!(
        AnyConsensusState::try_from(Any {
            type_url: TENDERMINT_CONSENSUS_STATE_TYPE_URL.to_string(),
            value: vec![0u8; 71]
        }),
        Err(ClientError::MalformedState)
    );

    // The name of the chain must be well-formed UTF-8.
    let mut bytes = AnyClientState::Tendermint(tm_state("mockgaia-4")).into_any().value;
    assert_eq!(decode_tm_client(&bytes), Ok(tm_state("mockgaia-4")));
    bytes.push(0xff);
    assert_eq!(decode_tm_client(&bytes), Err(ClientError::MalformedState));
    assert_eq!(
        decode_tm_client(&vec![0u8; 56]),
        Err(ClientError::MalformedState)
    );
    // Without a name, the chain has the empty name.
    assert_eq!(decode_tm_client(&vec![0u8; 57]).unwrap().chain_id.name, "");
}
