//! Client and consensus states as they cross the boundary of the engine: a
//! type tag that says which kind of state it is, and the state laid out as
//! bytes.
//!
//! The layout of the bytes is this library's own: fixed-width fields in a
//! fixed order. It is no wire encoding, and bytes that another
//! implementation laid out are not read by it; what it gives is that a state
//! laid out here is read back here as the same state.

use vstd::prelude::*;
use vstd::string::StrSliceExecFns;
use vstd::utf8::{decode_utf8, encode_utf8, valid_utf8};
use crate::client::{
    AnyClientState,
    AnyConsensusState,
    CommitmentRoot,
    MockClientState,
    MockConsensusState,
    MockHeader,
    TmClientState,
    TmConsensusState,
};
use crate::commitment::{be_bytes, push_be_bytes};
use crate::error::ClientError;
use crate::height::Height;
use crate::identifier::ChainId;
use crate::timestamp::{Duration, Timestamp};

verus! {

/// The type tag of the state of a Tendermint client.
pub const TENDERMINT_CLIENT_STATE_TYPE_URL: &'static str =
    "/ibc.lightclients.tendermint.v1.ClientState";

/// The type tag of a consensus state of a Tendermint client.
pub const TENDERMINT_CONSENSUS_STATE_TYPE_URL: &'static str =
    "/ibc.lightclients.tendermint.v1.ConsensusState";

/// The type tag of the state of a stand-in client.
pub const MOCK_CLIENT_STATE_TYPE_URL: &'static str = "/ibc.mock.ClientState";

/// The type tag of a consensus state of a stand-in client.
pub const MOCK_CONSENSUS_STATE_TYPE_URL: &'static str = "/ibc.mock.ConsensusState";

/// A value of some type, as bytes, with the tag of its type.
#[derive(Debug, PartialEq, Eq)]
pub struct Any {
    pub type_url: String,
    pub value: Vec<u8>,
}

/// Reads `String::from_utf8`: the string that the bytes spell, where they
/// are well-formed UTF-8, and nothing where they are not.
#[verifier::external_body]
fn string_from_utf8(bytes: Vec<u8>) -> (r: Option<String>)
    ensures
        match r {
            Some(s) => valid_utf8(bytes@) && s@ == decode_utf8(bytes@),
            None => !valid_utf8(bytes@),
        },
{
    match String::from_utf8(bytes) {
        Ok(s) => Some(s),
        Err(_) => None,
    }
}

/// The number that eight bytes spell, most significant first.
pub open spec fn be_value(b: Seq<u8>) -> u64
    recommends
        b.len() == 8,
{
    ((b[0] as u64) << 56) | ((b[1] as u64) << 48) | ((b[2] as u64) << 40) | ((b[3] as u64) << 32)
        | ((b[4] as u64) << 24) | ((b[5] as u64) << 16) | ((b[6] as u64) << 8) | (b[7] as u64)
}

/// Laying a number out as bytes and reading the bytes gives the number back.
pub proof fn lemma_be_round_trip(x: u64)
    ensures
        be_bytes(x).len() == 8,
        be_value(be_bytes(x)) == x,
{
    let b = be_bytes(x);
    assert(((((x >> 56) & 0xff) as u8) as u64) << 56 | ((((x >> 48) & 0xff) as u8) as u64) << 48 | (
    (((x >> 40) & 0xff) as u8) as u64) << 40 | ((((x >> 32) & 0xff) as u8) as u64) << 32 | ((((x
        >> 24) & 0xff) as u8) as u64) << 24 | ((((x >> 16) & 0xff) as u8) as u64) << 16 | ((((x >> 8)
        & 0xff) as u8) as u64) << 8 | (((x & 0xff) as u8) as u64) == x) by (bit_vector);
}

/// Reads the number that the eight bytes from place `at` on spell.
pub fn read_be(bytes: &Vec<u8>, at: usize) -> (r: u64)
    requires
        at + 8 <= bytes@.len(),
    ensures
        r == be_value(bytes@.subrange(at as int, at + 8)),
{
    let n = bytes.len();
    let ghost b = bytes@.subrange(at as int, at + 8);
    assert(b[0] == bytes@[at as int] && b[1] == bytes@[at + 1] && b[2] == bytes@[at + 2] && b[3]
        == bytes@[at + 3] && b[4] == bytes@[at + 4] && b[5] == bytes@[at + 5] && b[6] == bytes@[at
        + 6] && b[7] == bytes@[at + 7]);
    ((bytes[at] as u64) << 56) | ((bytes[at + 1] as u64) << 48) | ((bytes[at + 2] as u64) << 40) | (
    (bytes[at + 3] as u64) << 32) | ((bytes[at + 4] as u64) << 24) | ((bytes[at + 5] as u64) << 16)
        | ((bytes[at + 6] as u64) << 8) | (bytes[at + 7] as u64)
}

/// Reads the 32 bytes from place `at` on.
pub fn read_digest(bytes: &Vec<u8>, at: usize) -> (r: [u8; 32])
    requires
        at + 32 <= bytes@.len(),
    ensures
        r@ == bytes@.subrange(at as int, at + 32),
{
    let n = bytes.len();
    let mut out = [0u8; 32];
    let mut i: usize = 0;
    while i < 32
        invariant
            i <= 32,
            at + 32 <= bytes@.len() == n,
            forall|j: int| 0 <= j < i ==> out@[j] == bytes@[at + j],
        decreases 32 - i,
    {
        out[i] = bytes[at + i];
        i += 1;
    }
    assert(out@ =~= bytes@.subrange(at as int, at + 32));
    out
}

/// Appends 32 bytes to `out`.
pub fn push_digest(out: &mut Vec<u8>, digest: &[u8; 32])
    ensures
        final(out)@ == old(out)@ + digest@,
{
    let ghost head = out@;
    let mut i: usize = 0;
    while i < 32
        invariant
            i <= 32,
            out@ == head + digest@.subrange(0, i as int),
        decreases 32 - i,
    {
        out.push(digest[i]);
        i += 1;
        assert(out@ =~= head + digest@.subrange(0, i as int));
    }
    assert(digest@.subrange(0, 32) =~= digest@);
}

/// A height as bytes: its revision number, then its height within the
/// revision.
pub open spec fn height_bytes(h: Height) -> Seq<u8> {
    be_bytes(h.revision_number) + be_bytes(h.revision_height)
}

/// The height that sixteen bytes spell.
pub open spec fn height_value(b: Seq<u8>) -> Height
    recommends
        b.len() == 16,
{
    Height {
        revision_number: be_value(b.subrange(0, 8)),
        revision_height: be_value(b.subrange(8, 16)),
    }
}

/// A height that may be missing, as bytes: a one and the height, or a zero
/// and sixteen zeros.
pub open spec fn optional_height_bytes(h: Option<Height>) -> Seq<u8> {
    match h {
        Some(h) => seq![1u8] + height_bytes(h),
        None => seq![0u8] + be_bytes(0) + be_bytes(0),
    }
}

/// The height that seventeen bytes spell, which may be missing; nothing
/// where the first byte is neither zero nor one.
pub open spec fn optional_height_value(b: Seq<u8>) -> Option<Option<Height>>
    recommends
        b.len() == 17,
{
    if b[0] == 0 {
        Some(None)
    } else if b[0] == 1 {
        Some(Some(height_value(b.subrange(1, 17))))
    } else {
        None
    }
}

/// The header of a stand-in chain as bytes: its height, then its time.
pub open spec fn mock_header_bytes(h: MockHeader) -> Seq<u8> {
    height_bytes(h.height) + be_bytes(h.timestamp.nanos)
}

/// The state of a stand-in client as bytes: its header, then its freeze
/// height.
pub open spec fn mock_client_bytes(cs: MockClientState) -> Seq<u8> {
    mock_header_bytes(cs.header) + optional_height_bytes(cs.frozen_height)
}

/// The state of a stand-in client that the bytes spell.
pub open spec fn mock_client_value(b: Seq<u8>) -> Result<MockClientState, ClientError> {
    if b.len() != 41 {
        Err(ClientError::MalformedState)
    } else {
        match optional_height_value(b.subrange(24, 41)) {
            None => Err(ClientError::MalformedState),
            Some(frozen_height) => Ok(
                MockClientState {
                    header: MockHeader {
                        height: height_value(b.subrange(0, 16)),
                        timestamp: Timestamp { nanos: be_value(b.subrange(16, 24)) },
                    },
                    frozen_height,
                },
            ),
        }
    }
}

/// The consensus state of a stand-in client that the bytes spell.
pub open spec fn mock_consensus_value(b: Seq<u8>) -> Result<MockConsensusState, ClientError> {
    if b.len() != 24 {
        Err(ClientError::MalformedState)
    } else {
        Ok(
            MockConsensusState {
                header: MockHeader {
                    height: height_value(b.subrange(0, 16)),
                    timestamp: Timestamp { nanos: be_value(b.subrange(16, 24)) },
                },
            },
        )
    }
}

/// A consensus state of a Tendermint client as bytes: its time, its root,
/// and the hash of the next validators.
pub open spec fn tm_consensus_bytes(cs: TmConsensusState) -> Seq<u8> {
    be_bytes(cs.timestamp.nanos) + cs.root@ + cs.next_validators_hash@
}

/// Whether `cs` is the consensus state of a Tendermint client that the
/// bytes spell.
pub open spec fn is_tm_consensus_value(b: Seq<u8>, cs: TmConsensusState) -> bool {
    &&& b.len() == 72
    &&& cs.timestamp.nanos == be_value(b.subrange(0, 8))
    &&& cs.root@ == b.subrange(8, 40)
    &&& cs.next_validators_hash@ == b.subrange(40, 72)
}

/// The state of a Tendermint client as bytes: the revision of its chain,
/// its two periods, its latest height, its freeze height, and the name of its
/// chain.
pub open spec fn tm_client_bytes(cs: TmClientState) -> Seq<u8> {
    be_bytes(cs.chain_id.revision_number) + be_bytes(cs.trusting_period.nanos) + be_bytes(
        cs.max_clock_drift.nanos,
    ) + height_bytes(cs.latest_height) + optional_height_bytes(cs.frozen_height) + encode_utf8(
        cs.chain_id.name@,
    )
}

/// Whether `cs` is the state of a Tendermint client that the bytes spell.
pub open spec fn is_tm_client_value(b: Seq<u8>, cs: TmClientState) -> bool {
    &&& b.len() >= 57
    &&& cs.chain_id.revision_number == be_value(b.subrange(0, 8))
    &&& cs.trusting_period.nanos == be_value(b.subrange(8, 16))
    &&& cs.max_clock_drift.nanos == be_value(b.subrange(16, 24))
    &&& cs.latest_height == height_value(b.subrange(24, 40))
    &&& optional_height_value(b.subrange(40, 57)) == Some(cs.frozen_height)
    &&& valid_utf8(b.subrange(57, b.len() as int))
    &&& cs.chain_id.name@ == decode_utf8(b.subrange(57, b.len() as int))
}

/// Whether the bytes spell the state of a Tendermint client.
pub open spec fn spells_tm_client(b: Seq<u8>) -> bool {
    &&& b.len() >= 57
    &&& optional_height_value(b.subrange(40, 57)) is Some
    &&& valid_utf8(b.subrange(57, b.len() as int))
}

/// Appends a height to `out`.
pub fn push_height(out: &mut Vec<u8>, h: &Height)
    ensures
        final(out)@ == old(out)@ + height_bytes(*h),
{
    push_be_bytes(out, h.revision_number);
    push_be_bytes(out, h.revision_height);
    assert(out@ =~= old(out)@ + height_bytes(*h));
}

/// Appends a height that may be missing to `out`.
pub fn push_optional_height(out: &mut Vec<u8>, h: &Option<Height>)
    ensures
        final(out)@ == old(out)@ + optional_height_bytes(*h),
{
    match h {
        Some(h) => {
            out.push(1u8);
            push_height(out, h);
            assert(out@ =~= old(out)@ + optional_height_bytes(Some(*h)));
        },
        None => {
            out.push(0u8);
            push_be_bytes(out, 0);
            push_be_bytes(out, 0);
            assert(out@ =~= old(out)@ + optional_height_bytes(None));
        },
    }
}

/// Reads the height that the sixteen bytes from place `at` on spell.
pub fn read_height(bytes: &Vec<u8>, at: usize) -> (r: Height)
    requires
        at + 16 <= bytes@.len(),
    ensures
        r == height_value(bytes@.subrange(at as int, at + 16)),
{
    let n = bytes.len();
    let ghost b = bytes@.subrange(at as int, at + 16);
    assert(b.subrange(0, 8) =~= bytes@.subrange(at as int, at + 8));
    assert(b.subrange(8, 16) =~= bytes@.subrange(at + 8, at + 16));
    Height { revision_number: read_be(bytes, at), revision_height: read_be(bytes, at + 8) }
}

/// Reads the height that the seventeen bytes from place `at` on spell,
/// which may be missing.
pub fn read_optional_height(bytes: &Vec<u8>, at: usize) -> (r: Option<Option<Height>>)
    requires
        at + 17 <= bytes@.len(),
    ensures
        r == optional_height_value(bytes@.subrange(at as int, at + 17)),
{
    let n = bytes.len();
    let ghost b = bytes@.subrange(at as int, at + 17);
    assert(b[0] == bytes@[at as int]);
    assert(b.subrange(1, 17) =~= bytes@.subrange(at + 1, at + 17));
    if bytes[at] == 0 {
        Some(None)
    } else if bytes[at] == 1 {
        Some(Some(read_height(bytes, at + 1)))
    } else {
        None
    }
}

/// Reading a height that was laid out gives the height back.
pub proof fn lemma_height_round_trip(h: Height)
    ensures
        height_bytes(h).len() == 16,
        height_value(height_bytes(h)) == h,
{
    lemma_be_round_trip(h.revision_number);
    lemma_be_round_trip(h.revision_height);
    let b = height_bytes(h);
    assert(b.subrange(0, 8) =~= be_bytes(h.revision_number));
    assert(b.subrange(8, 16) =~= be_bytes(h.revision_height));
}

/// Reading a height that may be missing and was laid out gives it back.
pub proof fn lemma_optional_height_round_trip(h: Option<Height>)
    ensures
        optional_height_bytes(h).len() == 17,
        optional_height_value(optional_height_bytes(h)) == Some(h),
{
    let b = optional_height_bytes(h);
    lemma_be_round_trip(0);
    match h {
        Some(inner) => {
            lemma_height_round_trip(inner);
            assert(b.subrange(1, 17) =~= height_bytes(inner));
        },
        None => {},
    }
}

/// Lays the state of a stand-in client out as bytes.
pub fn encode_mock_client(cs: &MockClientState) -> (r: Vec<u8>)
    ensures
        r@ == mock_client_bytes(*cs),
{
    let mut out: Vec<u8> = Vec::new();
    push_height(&mut out, &cs.header.height);
    push_be_bytes(&mut out, cs.header.timestamp.nanos);
    push_optional_height(&mut out, &cs.frozen_height);
    assert(out@ =~= mock_client_bytes(*cs));
    out
}

/// Reads the state of a stand-in client from bytes.
pub fn decode_mock_client(bytes: &Vec<u8>) -> (r: Result<MockClientState, ClientError>)
    ensures
        r == mock_client_value(bytes@),
{
    if bytes.len() != 41 {
        return Err(ClientError::MalformedState);
    }
    match read_optional_height(bytes, 24) {
        None => Err(ClientError::MalformedState),
        Some(frozen_height) => Ok(
            MockClientState {
                header: MockHeader {
                    height: read_height(bytes, 0),
                    timestamp: Timestamp { nanos: read_be(bytes, 16) },
                },
                frozen_height,
            },
        ),
    }
}

/// Lays a consensus state of a stand-in client out as bytes.
pub fn encode_mock_consensus(cs: &MockConsensusState) -> (r: Vec<u8>)
    ensures
        r@ == mock_header_bytes(cs.header),
{
    let mut out: Vec<u8> = Vec::new();
    push_height(&mut out, &cs.header.height);
    push_be_bytes(&mut out, cs.header.timestamp.nanos);
    assert(out@ =~= mock_header_bytes(cs.header));
    out
}

/// Reads a consensus state of a stand-in client from bytes.
pub fn decode_mock_consensus(bytes: &Vec<u8>) -> (r: Result<MockConsensusState, ClientError>)
    ensures
        r == mock_consensus_value(bytes@),
{
    if bytes.len() != 24 {
        return Err(ClientError::MalformedState);
    }
    Ok(
        MockConsensusState {
            header: MockHeader {
                height: read_height(bytes, 0),
                timestamp: Timestamp { nanos: read_be(bytes, 16) },
            },
        },
    )
}

/// Lays a consensus state of a Tendermint client out as bytes.
pub fn encode_tm_consensus(cs: &TmConsensusState) -> (r: Vec<u8>)
    ensures
        r@ == tm_consensus_bytes(*cs),
{
    let mut out: Vec<u8> = Vec::new();
    push_be_bytes(&mut out, cs.timestamp.nanos);
    push_digest(&mut out, &cs.root.hash);
    push_digest(&mut out, &cs.next_validators_hash);
    assert(out@ =~= tm_consensus_bytes(*cs));
    out
}

/// Reads a consensus state of a Tendermint client from bytes.
pub fn decode_tm_consensus(bytes: &Vec<u8>) -> (r: Result<TmConsensusState, ClientError>)
    ensures
        match r {
            Ok(cs) => is_tm_consensus_value(bytes@, cs),
            Err(e) => bytes@.len() != 72 && e == ClientError::MalformedState,
        },
{
    if bytes.len() != 72 {
        return Err(ClientError::MalformedState);
    }
    Ok(
        TmConsensusState {
            timestamp: Timestamp { nanos: read_be(bytes, 0) },
            root: CommitmentRoot { hash: read_digest(bytes, 8) },
            next_validators_hash: read_digest(bytes, 40),
        },
    )
}

/// Lays the state of a Tendermint client out as bytes.
pub fn encode_tm_client(cs: &TmClientState) -> (r: Vec<u8>)
    ensures
        r@ == tm_client_bytes(*cs),
{
    let mut out: Vec<u8> = Vec::new();
    push_be_bytes(&mut out, cs.chain_id.revision_number);
    push_be_bytes(&mut out, cs.trusting_period.nanos);
    push_be_bytes(&mut out, cs.max_clock_drift.nanos);
    push_height(&mut out, &cs.latest_height);
    push_optional_height(&mut out, &cs.frozen_height);
    let mut name = cs.chain_id.name.as_str().as_bytes_vec();
    let ghost head = out@;
    let ghost tail = name@;
    out.append(&mut name);
    assert(out@ =~= head + tail);
    assert(out@ =~= tm_client_bytes(*cs));
    out
}

/// Reads the state of a Tendermint client from bytes.
pub fn decode_tm_client(bytes: &Vec<u8>) -> (r: Result<TmClientState, ClientError>)
    ensures
        match r {
            Ok(cs) => is_tm_client_value(bytes@, cs),
            Err(e) => !spells_tm_client(bytes@) && e == ClientError::MalformedState,
        },
{
    if bytes.len() < 57 {
        return Err(ClientError::MalformedState);
    }
    let frozen_height = match read_optional_height(bytes, 40) {
        Some(h) => h,
        None => {
            return Err(ClientError::MalformedState);
        },
    };
    let mut name_bytes: Vec<u8> = Vec::new();
    let mut i: usize = 57;
    while i < bytes.len()
        invariant
            57 <= i <= bytes.len(),
            name_bytes@ == bytes@.subrange(57, i as int),
        decreases bytes.len() - i,
    {
        name_bytes.push(bytes[i]);
        i += 1;
        assert(name_bytes@ =~= bytes@.subrange(57, i as int));
    }
    let name = match string_from_utf8(name_bytes) {
        Some(name) => name,
        None => {
            return Err(ClientError::MalformedState);
        },
    };
    Ok(
        TmClientState {
            chain_id: ChainId { name, revision_number: read_be(bytes, 0) },
            trusting_period: Duration { nanos: read_be(bytes, 8) },
            max_clock_drift: Duration { nanos: read_be(bytes, 16) },
            latest_height: read_height(bytes, 24),
            frozen_height,
        },
    )
}

/// Whether a type tag is the given one.
pub fn tag_is(type_url: &String, tag: &str) -> (r: bool)
    ensures
        r == (type_url@ == tag@),
{
    let mut other = String::new();
    other.append(tag);
    assert(other@ =~= tag@);
    *type_url == other
}

/// What a tagged value is as a client state.
pub open spec fn spec_client_state_from(
    raw: Any,
    r: Result<AnyClientState, ClientError>,
) -> bool {
    if raw.type_url@ == TENDERMINT_CLIENT_STATE_TYPE_URL@ {
        match r {
            Ok(AnyClientState::Tendermint(cs)) => is_tm_client_value(raw.value@, cs),
            Ok(_) => false,
            Err(e) => !spells_tm_client(raw.value@) && e == ClientError::MalformedState,
        }
    } else if raw.type_url@ == MOCK_CLIENT_STATE_TYPE_URL@ {
        match mock_client_value(raw.value@) {
            Ok(cs) => r == Ok::<AnyClientState, ClientError>(AnyClientState::Mock(cs)),
            Err(e) => r == Err::<AnyClientState, ClientError>(e),
        }
    } else {
        r == Err::<AnyClientState, ClientError>(ClientError::UnknownClientType)
    }
}

/// What a tagged value is as a consensus state.
pub open spec fn spec_consensus_state_from(
    raw: Any,
    r: Result<AnyConsensusState, ClientError>,
) -> bool {
    if raw.type_url@ == TENDERMINT_CONSENSUS_STATE_TYPE_URL@ {
        match r {
            Ok(AnyConsensusState::Tendermint(cs)) => is_tm_consensus_value(raw.value@, cs),
            Ok(_) => false,
            Err(e) => raw.value@.len() != 72 && e == ClientError::MalformedState,
        }
    } else if raw.type_url@ == MOCK_CONSENSUS_STATE_TYPE_URL@ {
        match mock_consensus_value(raw.value@) {
            Ok(cs) => r == Ok::<AnyConsensusState, ClientError>(AnyConsensusState::Mock(cs)),
            Err(e) => r == Err::<AnyConsensusState, ClientError>(e),
        }
    } else {
        r == Err::<AnyConsensusState, ClientError>(ClientError::UnknownClientType)
    }
}

impl AnyClientState {
    /// Reads a client state from a tagged value. The tag decides which kind
    /// of state the bytes are read as; a tag that names no known kind is
    /// turned down, as are bytes that do not spell a state of the kind.
    pub fn try_from(raw: Any) -> (r: Result<AnyClientState, ClientError>)
        ensures
            spec_client_state_from(raw, r),
    {
        if tag_is(&raw.type_url, TENDERMINT_CLIENT_STATE_TYPE_URL) {
            match decode_tm_client(&raw.value) {
                Ok(cs) => Ok(AnyClientState::Tendermint(cs)),
                Err(e) => Err(e),
            }
        } else if tag_is(&raw.type_url, MOCK_CLIENT_STATE_TYPE_URL) {
            match decode_mock_client(&raw.value) {
                Ok(cs) => Ok(AnyClientState::Mock(cs)),
                Err(e) => Err(e),
            }
        } else {
            Err(ClientError::UnknownClientType)
        }
    }

    /// The client state as a tagged value.
    pub fn into_any(self) -> (r: Any)
        ensures
            match self {
                AnyClientState::Tendermint(cs) => r.type_url@
                    == TENDERMINT_CLIENT_STATE_TYPE_URL@ && r.value@ == tm_client_bytes(cs),
                AnyClientState::Mock(cs) => r.type_url@ == MOCK_CLIENT_STATE_TYPE_URL@ && r.value@
                    == mock_client_bytes(cs),
            },
    {
        match self {
            AnyClientState::Tendermint(cs) => Any {
                type_url: TENDERMINT_CLIENT_STATE_TYPE_URL.to_owned(),
                value: encode_tm_client(&cs),
            },
            AnyClientState::Mock(cs) => Any {
                type_url: MOCK_CLIENT_STATE_TYPE_URL.to_owned(),
                value: encode_mock_client(&cs),
            },
        }
    }
}

impl AnyConsensusState {
    /// Reads a consensus state from a tagged value. The tag decides which
    /// kind of state the bytes are read as; a tag that names no known kind is
    /// turned down, as are bytes that do not spell a state of the kind.
    pub fn try_from(raw: Any) -> (r: Result<AnyConsensusState, ClientError>)
        ensures
            spec_consensus_state_from(raw, r),
    {
        if tag_is(&raw.type_url, TENDERMINT_CONSENSUS_STATE_TYPE_URL) {
            match decode_tm_consensus(&raw.value) {
                Ok(cs) => Ok(AnyConsensusState::Tendermint(cs)),
                Err(e) => Err(e),
            }
        } else if tag_is(&raw.type_url, MOCK_CONSENSUS_STATE_TYPE_URL) {
            match decode_mock_consensus(&raw.value) {
                Ok(cs) => Ok(AnyConsensusState::Mock(cs)),
                Err(e) => Err(e),
            }
        } else {
            Err(ClientError::UnknownClientType)
        }
    }

    /// The consensus state as a tagged value.
    pub fn into_any(self) -> (r: Any)
        ensures
            match self {
                AnyConsensusState::Tendermint(cs) => r.type_url@
                    == TENDERMINT_CONSENSUS_STATE_TYPE_URL@ && r.value@ == tm_consensus_bytes(cs),
                AnyConsensusState::Mock(cs) => r.type_url@ == MOCK_CONSENSUS_STATE_TYPE_URL@
                    && r.value@ == mock_header_bytes(cs.header),
            },
    {
        match self {
            AnyConsensusState::Tendermint(cs) => Any {
                type_url: TENDERMINT_CONSENSUS_STATE_TYPE_URL.to_owned(),
                value: encode_tm_consensus(&cs),
            },
            AnyConsensusState::Mock(cs) => Any {
                type_url: MOCK_CONSENSUS_STATE_TYPE_URL.to_owned(),
                value: encode_mock_consensus(&cs),
            },
        }
    }
}

impl From<AnyClientState> for Any {
    /// The client state as a tagged value: the tag of its kind and the bytes
    /// of the state, as `into_any` gives them.
    fn from(host_client_state: AnyClientState) -> (r: Any)
        ensures
            match host_client_state {
                AnyClientState::Tendermint(cs) => r.type_url@
                    == TENDERMINT_CLIENT_STATE_TYPE_URL@ && r.value@ == tm_client_bytes(cs),
                AnyClientState::Mock(cs) => r.type_url@ == MOCK_CLIENT_STATE_TYPE_URL@ && r.value@
                    == mock_client_bytes(cs),
            },
    {
        host_client_state.into_any()
    }
}

impl vstd::std_specs::convert::FromSpecImpl<AnyClientState> for Any {
    open spec fn obeys_from_spec() -> bool {
        false
    }

    open spec fn from_spec(host_client_state: AnyClientState) -> Any {
        arbitrary()
    }
}

impl From<AnyConsensusState> for Any {
    /// The consensus state as a tagged value: the tag of its kind and the
    /// bytes of the state, as `into_any` gives them.
    fn from(host_consensus_state: AnyConsensusState) -> (r: Any)
        ensures
            match host_consensus_state {
                AnyConsensusState::Tendermint(cs) => r.type_url@
                    == TENDERMINT_CONSENSUS_STATE_TYPE_URL@ && r.value@ == tm_consensus_bytes(cs),
                AnyConsensusState::Mock(cs) => r.type_url@ == MOCK_CONSENSUS_STATE_TYPE_URL@
                    && r.value@ == mock_header_bytes(cs.header),
            },
    {
        host_consensus_state.into_any()
    }
}

impl vstd::std_specs::convert::FromSpecImpl<AnyConsensusState> for Any {
    open spec fn obeys_from_spec() -> bool {
        false
    }

    open spec fn from_spec(host_consensus_state: AnyConsensusState) -> Any {
        arbitrary()
    }
}

/// Reading a client state that was laid out as a tagged value gives the
/// client state back.
pub proof fn law_client_state_round_trip(cs: AnyClientState, raw: Any, r: Result<
    AnyClientState,
    ClientError,
>)
    requires
        match cs {
            AnyClientState::Tendermint(tm) => raw.type_url@ == TENDERMINT_CLIENT_STATE_TYPE_URL@
                && raw.value@ == tm_client_bytes(tm),
            AnyClientState::Mock(mock) => raw.type_url@ == MOCK_CLIENT_STATE_TYPE_URL@
                && raw.value@ == mock_client_bytes(mock),
        },
        spec_client_state_from(raw, r),
    ensures
        match (cs, r) {
            (AnyClientState::Mock(a), Ok(AnyClientState::Mock(b))) => a == b,
            (AnyClientState::Tendermint(a), Ok(AnyClientState::Tendermint(b))) => {
                &&& a.chain_id.name@ == b.chain_id.name@
                &&& a.chain_id.revision_number == b.chain_id.revision_number
                &&& a.trusting_period == b.trusting_period
                &&& a.max_clock_drift == b.max_clock_drift
                &&& a.latest_height == b.latest_height
                &&& a.frozen_height == b.frozen_height
            },
            _ => false,
        },
{
    reveal_strlit("/ibc.lightclients.tendermint.v1.ClientState");
    reveal_strlit("/ibc.mock.ClientState");
    assert(TENDERMINT_CLIENT_STATE_TYPE_URL@ != MOCK_CLIENT_STATE_TYPE_URL@) by {
        assert(TENDERMINT_CLIENT_STATE_TYPE_URL@.len() != MOCK_CLIENT_STATE_TYPE_URL@.len());
    }
    match cs {
        AnyClientState::Mock(mock) => {
            let b = raw.value@;
            lemma_height_round_trip(mock.header.height);
            lemma_be_round_trip(mock.header.timestamp.nanos);
            lemma_optional_height_round_trip(mock.frozen_height);
            assert(b.subrange(0, 16) =~= height_bytes(mock.header.height));
            assert(b.subrange(16, 24) =~= be_bytes(mock.header.timestamp.nanos));
            assert(b.subrange(24, 41) =~= optional_height_bytes(mock.frozen_height));
        },
        AnyClientState::Tendermint(tm) => {
            let b = raw.value@;
            lemma_be_round_trip(tm.chain_id.revision_number);
            lemma_be_round_trip(tm.trusting_period.nanos);
            lemma_be_round_trip(tm.max_clock_drift.nanos);
            lemma_height_round_trip(tm.latest_height);
            lemma_optional_height_round_trip(tm.frozen_height);
            vstd::utf8::encode_utf8_valid_utf8(tm.chain_id.name@);
            vstd::utf8::encode_utf8_decode_utf8(tm.chain_id.name@);
            assert(b.subrange(0, 8) =~= be_bytes(tm.chain_id.revision_number));
            assert(b.subrange(8, 16) =~= be_bytes(tm.trusting_period.nanos));
            assert(b.subrange(16, 24) =~= be_bytes(tm.max_clock_drift.nanos));
            assert(b.subrange(24, 40) =~= height_bytes(tm.latest_height));
            assert(b.subrange(40, 57) =~= optional_height_bytes(tm.frozen_height));
            assert(b.subrange(57, b.len() as int) =~= encode_utf8(tm.chain_id.name@));
            assert(spells_tm_client(b));
        },
    }
}

/// Reading a consensus state that was laid out as a tagged value gives the
/// consensus state back.
pub proof fn law_consensus_state_round_trip(cs: AnyConsensusState, raw: Any, r: Result<
    AnyConsensusState,
    ClientError,
>)
    requires
        match cs {
            AnyConsensusState::Tendermint(tm) => raw.type_url@
                == TENDERMINT_CONSENSUS_STATE_TYPE_URL@ && raw.value@ == tm_consensus_bytes(tm),
            AnyConsensusState::Mock(mock) => raw.type_url@ == MOCK_CONSENSUS_STATE_TYPE_URL@
                && raw.value@ == mock_header_bytes(mock.header),
        },
        spec_consensus_state_from(raw, r),
    ensures
        r matches Ok(back) && back == cs,
{
    reveal_strlit("/ibc.lightclients.tendermint.v1.ConsensusState");
    reveal_strlit("/ibc.mock.ConsensusState");
    assert(TENDERMINT_CONSENSUS_STATE_TYPE_URL@ != MOCK_CONSENSUS_STATE_TYPE_URL@) by {
        assert(TENDERMINT_CONSENSUS_STATE_TYPE_URL@.len() != MOCK_CONSENSUS_STATE_TYPE_URL@.len());
    }
    match cs {
        AnyConsensusState::Mock(mock) => {
            let b = raw.value@;
            lemma_height_round_trip(mock.header.height);
            lemma_be_round_trip(mock.header.timestamp.nanos);
            assert(b.subrange(0, 16) =~= height_bytes(mock.header.height));
            assert(b.subrange(16, 24) =~= be_bytes(mock.header.timestamp.nanos));
        },
        AnyConsensusState::Tendermint(tm) => {
            let b = raw.value@;
            lemma_be_round_trip(tm.timestamp.nanos);
            assert(b.subrange(0, 8) =~= be_bytes(tm.timestamp.nanos));
            assert(b.subrange(8, 40) =~= tm.root@);
            assert(b.subrange(40, 72) =~= tm.next_validators_hash@);
            let back = r->Ok_0->Tendermint_0;
            assert(back.root.hash =~= tm.root.hash);
            assert(back.next_validators_hash =~= tm.next_validators_hash);
        },
    }
}

} // verus!
