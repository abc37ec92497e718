//! Digests that stand on chain in place of packet data and acknowledgements.

use vstd::prelude::*;
use sha2::Digest;
use crate::height::Height;
use crate::table::Stored;
use crate::timestamp::Timestamp;

verus! {

/// The SHA-256 digest of a byte string, as the `sha2` crate computes it.
pub uninterp spec fn sha256(data: Seq<u8>) -> Seq<u8>;

/// Calls `sha2::Sha256::digest` on `data`. The contract names the result: the
/// digest is a function of the bytes alone, and 32 bytes long by its type.
#[verifier::external_body]
fn sha256_digest(data: &Vec<u8>) -> (r: [u8; 32])
    ensures
        r@ == sha256(data@),
{
    sha2::Sha256::digest(data.as_slice()).into()
}

/// Until when a packet may be received, counted in blocks of the receiving chain.
#[derive(Clone, Copy, Debug, PartialEq, Eq, Structural)]
pub enum TimeoutHeight {
    /// No limit by height.
    Never,
    /// The packet can be received up to and including this height.
    At(Height),
}

impl TimeoutHeight {
    /// A chain at `height` is strictly past the limit.
    pub open spec fn spec_has_expired(self, height: Height) -> bool {
        match self {
            TimeoutHeight::Never => false,
            TimeoutHeight::At(limit) => limit.spec_lt(height),
        }
    }

    /// The revision number that goes into a commitment.
    pub open spec fn commitment_revision_number(self) -> u64 {
        match self {
            TimeoutHeight::Never => 0,
            TimeoutHeight::At(limit) => limit.revision_number,
        }
    }

    /// The height within the revision that goes into a commitment.
    pub open spec fn commitment_revision_height(self) -> u64 {
        match self {
            TimeoutHeight::Never => 0,
            TimeoutHeight::At(limit) => limit.revision_height,
        }
    }

    pub fn no_timeout() -> (r: TimeoutHeight)
        ensures
            r == TimeoutHeight::Never,
    {
        TimeoutHeight::Never
    }

    /// Whether a chain at `height` is strictly past the limit.
    pub fn has_expired(&self, height: Height) -> (r: bool)
        ensures
            r == self.spec_has_expired(height),
    {
        match self {
            TimeoutHeight::Never => false,
            TimeoutHeight::At(limit) => limit.lt(&height),
        }
    }

    pub fn is_set(&self) -> (r: bool)
        ensures
            r == (*self != TimeoutHeight::Never),
    {
        match self {
            TimeoutHeight::Never => false,
            TimeoutHeight::At(_) => true,
        }
    }
}

impl From<Height> for TimeoutHeight {
    fn from(height: Height) -> (r: TimeoutHeight)
        ensures
            r == TimeoutHeight::At(height),
    {
        TimeoutHeight::At(height)
    }
}

impl vstd::std_specs::convert::FromSpecImpl<Height> for TimeoutHeight {
    open spec fn obeys_from_spec() -> bool {
        true
    }

    open spec fn from_spec(height: Height) -> TimeoutHeight {
        TimeoutHeight::At(height)
    }
}

/// The eight bytes of `x`, most significant first.
pub open spec fn be_bytes(x: u64) -> Seq<u8> {
    seq![
        ((x >> 56) & 0xff) as u8,
        ((x >> 48) & 0xff) as u8,
        ((x >> 40) & 0xff) as u8,
        ((x >> 32) & 0xff) as u8,
        ((x >> 24) & 0xff) as u8,
        ((x >> 16) & 0xff) as u8,
        ((x >> 8) & 0xff) as u8,
        (x & 0xff) as u8,
    ]
}

/// Appends the eight bytes of `x`, most significant first, to `out`.
pub fn push_be_bytes(out: &mut Vec<u8>, x: u64)
    ensures
        final(out)@ == old(out)@ + be_bytes(x),
{
    assert((x >> 56) & 0xff < 256) by (bit_vector);
    assert((x >> 48) & 0xff < 256) by (bit_vector);
    assert((x >> 40) & 0xff < 256) by (bit_vector);
    assert((x >> 32) & 0xff < 256) by (bit_vector);
    assert((x >> 24) & 0xff < 256) by (bit_vector);
    assert((x >> 16) & 0xff < 256) by (bit_vector);
    assert((x >> 8) & 0xff < 256) by (bit_vector);
    assert(x & 0xff < 256) by (bit_vector);
    out.push(((x >> 56) & 0xff) as u8);
    out.push(((x >> 48) & 0xff) as u8);
    out.push(((x >> 40) & 0xff) as u8);
    out.push(((x >> 32) & 0xff) as u8);
    out.push(((x >> 24) & 0xff) as u8);
    out.push(((x >> 16) & 0xff) as u8);
    out.push(((x >> 8) & 0xff) as u8);
    out.push((x & 0xff) as u8);
    assert(out@ =~= old(out)@ + be_bytes(x));
}

/// What is hashed for a packet commitment: the timeout timestamp, the timeout
/// height and the digest of the data, in that order.
pub open spec fn commitment_preimage(
    data_digest: Seq<u8>,
    timeout_height: TimeoutHeight,
    timeout_timestamp: Timestamp,
) -> Seq<u8> {
    be_bytes(timeout_timestamp.nanos) + be_bytes(timeout_height.commitment_revision_number())
        + be_bytes(timeout_height.commitment_revision_height()) + data_digest
}

/// The digest that commits to a packet's data and timeouts.
pub open spec fn spec_packet_commitment(
    data: Seq<u8>,
    timeout_height: TimeoutHeight,
    timeout_timestamp: Timestamp,
) -> Seq<u8> {
    sha256(commitment_preimage(sha256(data), timeout_height, timeout_timestamp))
}

/// Lays out what is hashed for a packet commitment.
pub fn build_commitment_preimage(
    data_digest: &[u8; 32],
    timeout_height: &TimeoutHeight,
    timeout_timestamp: &Timestamp,
) -> (r: Vec<u8>)
    ensures
        r@ == commitment_preimage(data_digest@, *timeout_height, *timeout_timestamp),
{
    let mut out: Vec<u8> = Vec::new();
    push_be_bytes(&mut out, timeout_timestamp.nanoseconds());
    let (number, height): (u64, u64) = match timeout_height {
        TimeoutHeight::Never => (0, 0),
        TimeoutHeight::At(limit) => (limit.revision_number(), limit.revision_height()),
    };
    push_be_bytes(&mut out, number);
    push_be_bytes(&mut out, height);
    let mut i: usize = 0;
    let ghost head = out@;
    while i < 32
        invariant
            i <= 32,
            out@ == head + data_digest@.subrange(0, i as int),
        decreases 32 - i,
    {
        out.push(data_digest[i]);
        i += 1;
        assert(out@ =~= head + data_digest@.subrange(0, i as int));
    }
    assert(data_digest@.subrange(0, 32) =~= data_digest@);
    assert(out@ =~= commitment_preimage(data_digest@, *timeout_height, *timeout_timestamp));
    out
}

/// The digest stored for a packet that was sent.
#[derive(Clone, Copy, Debug, PartialEq, Eq)]
pub struct PacketCommitment {
    pub digest: [u8; 32],
}

impl View for PacketCommitment {
    type V = Seq<u8>;

    open spec fn view(&self) -> Seq<u8> {
        self.digest@
    }
}

impl Stored for PacketCommitment {
    fn duplicate(&self) -> (r: Self) {
        PacketCommitment { digest: self.digest }
    }
}

impl PacketCommitment {
    pub fn new(digest: [u8; 32]) -> (r: PacketCommitment)
        ensures
            r@ == digest@,
    {
        PacketCommitment { digest }
    }

    /// Whether both commit to the same bytes.
    pub fn same(&self, other: &PacketCommitment) -> (r: bool)
        ensures
            r == (self@ == other@),
    {
        digests_equal(&self.digest, &other.digest)
    }
}

/// The digest stored for an acknowledgement that was written.
#[derive(Clone, Copy, Debug, PartialEq, Eq)]
pub struct AcknowledgementCommitment {
    pub digest: [u8; 32],
}

impl View for AcknowledgementCommitment {
    type V = Seq<u8>;

    open spec fn view(&self) -> Seq<u8> {
        self.digest@
    }
}

impl Stored for AcknowledgementCommitment {
    fn duplicate(&self) -> (r: Self) {
        AcknowledgementCommitment { digest: self.digest }
    }
}

impl AcknowledgementCommitment {
    pub fn new(digest: [u8; 32]) -> (r: AcknowledgementCommitment)
        ensures
            r@ == digest@,
    {
        AcknowledgementCommitment { digest }
    }

    /// Whether both commit to the same bytes.
    pub fn same(&self, other: &AcknowledgementCommitment) -> (r: bool)
        ensures
            r == (self@ == other@),
    {
        digests_equal(&self.digest, &other.digest)
    }
}

/// The mark left for a packet received on an unordered channel.
#[derive(Clone, Copy, Debug, PartialEq, Eq, Structural)]
pub enum Receipt {
    Received,
}

impl View for Receipt {
    type V = Receipt;

    open spec fn view(&self) -> Receipt {
        *self
    }
}

impl Stored for Receipt {
    fn duplicate(&self) -> (r: Self) {
        *self
    }
}

/// Compares two digests byte by byte.
pub fn digests_equal(a: &[u8; 32], b: &[u8; 32]) -> (r: bool)
    ensures
        r == (a@ == b@),
{
    let mut i: usize = 0;
    while i < 32
        invariant
            i <= 32,
            forall|j: int| 0 <= j < i ==> a[j] == b[j],
        decreases 32 - i,
    {
        if a[i] != b[i] {
            return false;
        }
        i += 1;
    }
    assert(a@ =~= b@);
    true
}

/// Commits to a packet's data and timeouts.
pub fn compute_packet_commitment(
    data: &Vec<u8>,
    timeout_height: &TimeoutHeight,
    timeout_timestamp: &Timestamp,
) -> (r: PacketCommitment)
    ensures
        r@ == spec_packet_commitment(data@, *timeout_height, *timeout_timestamp),
{
    let data_digest = sha256_digest(data);
    let preimage = build_commitment_preimage(&data_digest, timeout_height, timeout_timestamp);
    PacketCommitment { digest: sha256_digest(&preimage) }
}

/// Commits to the bytes of an acknowledgement.
pub fn compute_ack_commitment(ack: &Vec<u8>) -> (r: AcknowledgementCommitment)
    ensures
        r@ == sha256(ack@),
{
    AcknowledgementCommitment { digest: sha256_digest(ack) }
}

} // verus!
