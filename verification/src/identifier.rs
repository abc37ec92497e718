//! Identifiers of chains, clients, connections, channels, ports and modules,
//! and packet sequence numbers. They are plain data: all that the protocol
//! asks of them is equality. The name of a chain also tells the revision
//! that the chain is in.

use vstd::prelude::*;
use vstd::string::{StrSliceExecFns, StringSliceAdditionalSpecFns};
use crate::table::{Key, Stored};

verus! {

/// The light-client algorithms that the engine knows.
#[derive(Clone, Copy, Debug, PartialEq, Eq, Structural, Hash)]
pub enum ClientType {
    /// The stand-in client that accepts every proof.
    Mock,
    /// The Tendermint light client.
    Tendermint,
}

impl ClientType {
    /// The name under which the client type is written out.
    pub fn as_str(&self) -> (r: &'static str)
        ensures
            *self == ClientType::Mock ==> r@ == "9999-mock"@,
            *self == ClientType::Tendermint ==> r@ == "07-tendermint"@,
    {
        match self {
            ClientType::Mock => "9999-mock",
            ClientType::Tendermint => "07-tendermint",
        }
    }
}

/// The client type of the stand-in client.
pub fn mock_client_type() -> (r: ClientType)
    ensures
        r == ClientType::Mock,
{
    ClientType::Mock
}

/// Names a light client on the host: its type and the number it was created
/// under.
#[derive(Clone, Copy, Debug, PartialEq, Eq, Structural, Hash)]
pub struct ClientId {
    pub client_type: ClientType,
    pub counter: u64,
}

impl View for ClientId {
    type V = ClientId;

    open spec fn view(&self) -> ClientId {
        *self
    }
}

impl ClientId {
    pub fn new(client_type: ClientType, counter: u64) -> (r: ClientId)
        ensures
            r == (ClientId { client_type, counter }),
    {
        ClientId { client_type, counter }
    }

    pub fn client_type(&self) -> (r: ClientType)
        ensures
            r == self.client_type,
    {
        self.client_type
    }
}

impl Default for ClientId {
    /// The first Tendermint client.
    fn default() -> (r: ClientId)
        ensures
            r == (ClientId { client_type: ClientType::Tendermint, counter: 0 }),
    {
        ClientId { client_type: ClientType::Tendermint, counter: 0 }
    }
}

impl Stored for ClientId {
    fn duplicate(&self) -> (r: Self) {
        *self
    }
}

impl Key for ClientId {
    fn same(&self, other: &Self) -> (r: bool) {
        self.client_type == other.client_type && self.counter == other.counter
    }
}

/// Names a connection end on the host by the number it was created under.
#[derive(Clone, Copy, Debug, PartialEq, Eq, Structural, Hash)]
pub struct ConnectionId {
    pub counter: u64,
}

impl View for ConnectionId {
    type V = ConnectionId;

    open spec fn view(&self) -> ConnectionId {
        *self
    }
}

impl ConnectionId {
    pub fn new(counter: u64) -> (r: ConnectionId)
        ensures
            r.counter == counter,
    {
        ConnectionId { counter }
    }
}

impl Default for ConnectionId {
    fn default() -> (r: ConnectionId)
        ensures
            r.counter == 0,
    {
        ConnectionId { counter: 0 }
    }
}

impl Stored for ConnectionId {
    fn duplicate(&self) -> (r: Self) {
        *self
    }
}

impl Key for ConnectionId {
    fn same(&self, other: &Self) -> (r: bool) {
        self.counter == other.counter
    }
}

/// Names a channel end on the host by the number it was created under.
#[derive(Clone, Copy, Debug, PartialEq, Eq, Structural, Hash)]
pub struct ChannelId {
    pub counter: u64,
}

impl View for ChannelId {
    type V = ChannelId;

    open spec fn view(&self) -> ChannelId {
        *self
    }
}

impl ChannelId {
    pub fn new(counter: u64) -> (r: ChannelId)
        ensures
            r.counter == counter,
    {
        ChannelId { counter }
    }
}

impl Default for ChannelId {
    fn default() -> (r: ChannelId)
        ensures
            r.counter == 0,
    {
        ChannelId { counter: 0 }
    }
}

impl Stored for ChannelId {
    fn duplicate(&self) -> (r: Self) {
        *self
    }
}

impl Key for ChannelId {
    fn same(&self, other: &Self) -> (r: bool) {
        let r = self.counter == other.counter;
        assert(self@ == *self);
        assert(other@ == *other);
        assert(r == (*self == *other));
        r
    }
}

/// The number of a packet on its channel; numbering starts at one.
#[derive(Clone, Copy, Debug, PartialEq, Eq, Structural, Hash)]
pub struct Sequence {
    pub value: u64,
}

impl View for Sequence {
    type V = Sequence;

    open spec fn view(&self) -> Sequence {
        *self
    }
}

impl Sequence {
    pub open spec fn spec_next(self) -> Sequence
        recommends
            self.value < u64::MAX,
    {
        Sequence { value: (self.value + 1) as u64 }
    }

    pub fn new(value: u64) -> (r: Sequence)
        ensures
            r.value == value,
    {
        Sequence { value }
    }

    pub fn value(&self) -> (r: u64)
        ensures
            r == self.value,
    {
        self.value
    }

    /// The sequence number after this one.
    pub fn increment(&self) -> (r: Sequence)
        requires
            self.value < u64::MAX,
        ensures
            r == self.spec_next(),
    {
        Sequence { value: self.value + 1 }
    }
}

impl Stored for Sequence {
    fn duplicate(&self) -> (r: Self) {
        *self
    }
}

impl From<u64> for Sequence {
    fn from(value: u64) -> (r: Sequence)
        ensures
            r.value == value,
    {
        Sequence { value }
    }
}

impl vstd::std_specs::convert::FromSpecImpl<u64> for Sequence {
    open spec fn obeys_from_spec() -> bool {
        true
    }

    open spec fn from_spec(value: u64) -> Sequence {
        Sequence { value }
    }
}

/// Names a port, the place on a chain where a module is bound.
#[derive(Debug, PartialEq, Eq)]
pub struct PortId {
    pub id: String,
}

impl View for PortId {
    type V = Seq<char>;

    open spec fn view(&self) -> Seq<char> {
        self.id@
    }
}

impl PortId {
    pub fn new(id: String) -> (r: PortId)
        ensures
            r.id == id,
    {
        PortId { id }
    }

    /// The port of the token transfer application.
    pub fn transfer() -> (r: PortId)
        ensures
            r@ == "transfer"@,
    {
        PortId { id: "transfer".to_owned() }
    }

    pub fn as_str(&self) -> (r: &str)
        ensures
            r@ == self@,
    {
        self.id.as_str()
    }
}

impl Default for PortId {
    fn default() -> (r: PortId)
        ensures
            r@ == "defaultPort"@,
    {
        PortId { id: "defaultPort".to_owned() }
    }
}

impl Clone for PortId {
    fn clone(&self) -> (r: PortId)
        ensures
            r == *self,
    {
        PortId { id: self.id.clone() }
    }
}

impl Stored for PortId {
    fn duplicate(&self) -> (r: Self) {
        self.clone()
    }
}

impl Key for PortId {
    fn same(&self, other: &Self) -> (r: bool) {
        self.id == other.id
    }
}

/// Names an application module that the router can reach.
#[derive(Debug, PartialEq, Eq)]
pub struct ModuleId {
    pub id: String,
}

impl View for ModuleId {
    type V = Seq<char>;

    open spec fn view(&self) -> Seq<char> {
        self.id@
    }
}

impl ModuleId {
    pub fn new(id: String) -> (r: ModuleId)
        ensures
            r.id == id,
    {
        ModuleId { id }
    }
}

impl Clone for ModuleId {
    fn clone(&self) -> (r: ModuleId)
        ensures
            r == *self,
    {
        ModuleId { id: self.id.clone() }
    }
}

impl Stored for ModuleId {
    fn duplicate(&self) -> (r: Self) {
        self.clone()
    }
}

impl Key for ModuleId {
    fn same(&self, other: &Self) -> (r: bool) {
        self.id == other.id
    }
}

/// Names a chain: a name and the number of the revision the chain is in.
#[derive(Debug, PartialEq, Eq)]
pub struct ChainId {
    pub name: String,
    pub revision_number: u64,
}

/// Why a name is not taken for an identifier.
#[derive(Clone, Copy, Debug, PartialEq, Eq, Structural)]
pub enum IdentifierError {
    /// The name is empty.
    Empty,
}

/// The place of the last hyphen among the bytes, or -1 where there is none.
pub open spec fn last_hyphen(bytes: Seq<u8>) -> int
    decreases bytes.len(),
{
    if bytes.len() == 0 {
        -1
    } else if bytes.last() == 45 {
        bytes.len() - 1
    } else {
        last_hyphen(bytes.drop_last())
    }
}

/// Whether each of the bytes is a decimal digit.
pub open spec fn all_digits(bytes: Seq<u8>) -> bool {
    forall|i: int| 0 <= i < bytes.len() ==> 48 <= #[trigger] bytes[i] <= 57
}

/// The number that decimal digits spell.
pub open spec fn digits_value(digits: Seq<u8>) -> int
    decreases digits.len(),
{
    if digits.len() == 0 {
        0
    } else {
        digits_value(digits.drop_last()) * 10 + (digits.last() - 48)
    }
}

/// The revision that the name of a chain tells, the name given by its
/// bytes: the number that the name ends in after its last hyphen, where
/// what stands there is a number in decimal digits, without a zero in front,
/// that fits into 64 bits; zero for any other name.
pub open spec fn spec_revision_of(bytes: Seq<u8>) -> u64 {
    let digits = bytes.subrange(last_hyphen(bytes) + 1, bytes.len() as int);
    if last_hyphen(bytes) >= 0 && digits.len() >= 1 && all_digits(digits) && (digits.len() == 1
        || digits[0] != 48) && digits_value(digits) <= u64::MAX {
        digits_value(digits) as u64
    } else {
        0
    }
}

/// The last hyphen is the hyphen after which no other comes.
pub proof fn lemma_last_hyphen(bytes: Seq<u8>, at: int)
    requires
        -1 <= at < bytes.len(),
        at >= 0 ==> bytes[at] == 45,
        forall|k: int| at < k < bytes.len() ==> bytes[k] != 45,
    ensures
        last_hyphen(bytes) == at,
    decreases bytes.len(),
{
    if bytes.len() > 0 && bytes.last() != 45 {
        lemma_last_hyphen(bytes.drop_last(), at);
    }
}

/// Digits in front spell no more than the whole number does.
pub proof fn lemma_digits_grow(digits: Seq<u8>, n: int)
    requires
        all_digits(digits),
        0 <= n <= digits.len(),
    ensures
        0 <= digits_value(digits.subrange(0, n)) <= digits_value(digits),
    decreases digits.len() - n,
{
    if n < digits.len() {
        lemma_digits_grow(digits, n + 1);
        assert(digits.subrange(0, n + 1).drop_last() =~= digits.subrange(0, n));
        lemma_digits_grow_base(digits.subrange(0, n));
    } else {
        assert(digits.subrange(0, n) =~= digits);
        lemma_digits_grow_base(digits);
    }
}

/// Digits spell a number that is not negative.
pub proof fn lemma_digits_grow_base(digits: Seq<u8>)
    requires
        all_digits(digits),
    ensures
        0 <= digits_value(digits),
    decreases digits.len(),
{
    if digits.len() > 0 {
        lemma_digits_grow_base(digits.drop_last());
    }
}

/// Reads the revision that the name of a chain tells.
pub fn revision_of(bytes: &[u8]) -> (r: u64)
    ensures
        r == spec_revision_of(bytes@),
{
    let n = bytes.len();
    let mut start: usize = n;
    while start > 0 && bytes[start - 1] != 45u8
        invariant
            start <= n == bytes@.len(),
            forall|k: int| start <= k < n ==> bytes@[k] != 45,
        decreases start,
    {
        start -= 1;
    }
    proof {
        lemma_last_hyphen(bytes@, start - 1);
    }
    let ghost digits = bytes@.subrange(start as int, n as int);
    if start == 0 || start == n {
        return 0;
    }
    if n - start > 1 && bytes[start] == 48u8 {
        return 0;
    }
    let mut value: u64 = 0;
    let mut k: usize = start;
    while k < n
        invariant
            0 < start <= k <= n == bytes@.len(),
            last_hyphen(bytes@) == start - 1,
            digits == bytes@.subrange(start as int, n as int),
            all_digits(digits.subrange(0, k - start)),
            value == digits_value(digits.subrange(0, k - start)),
        decreases n - k,
    {
        let c = bytes[k];
        if c < 48u8 || c > 57u8 {
            assert(digits[k - start] == c);
            return 0;
        }
        let digit: u64 = (c - 48u8) as u64;
        proof {
            assert(digits.subrange(0, k + 1 - start).drop_last() =~= digits.subrange(
                0,
                k - start,
            ));
            assert(digits.subrange(0, k + 1 - start).last() == c);
        }
        if value > (u64::MAX - digit) / 10 {
            proof {
                if all_digits(digits) {
                    lemma_digits_grow(digits, k + 1 - start);
                }
            }
            return 0;
        }
        value = value * 10 + digit;
        k += 1;
    }
    proof {
        assert(digits.subrange(0, n - start) =~= digits);
    }
    value
}

impl ChainId {
    /// The chain of the given name. The revision that the chain is in is
    /// read from the name: it is the number that the name ends in after its
    /// last hyphen, and zero where the name ends in none. A name must not be
    /// empty.
    pub fn new(name: &str) -> (r: Result<ChainId, IdentifierError>)
        ensures
            match r {
                Ok(id) => name@.len() > 0 && id.name@ == name@ && id.revision_number
                    == spec_revision_of(name.spec_bytes()),
                Err(e) => name@.len() == 0 && e == IdentifierError::Empty,
            },
    {
        if name.unicode_len() == 0 {
            return Err(IdentifierError::Empty);
        }
        Ok(ChainId { name: name.to_owned(), revision_number: revision_of(name.as_bytes()) })
    }

    /// The chain of the given name in the given revision, whatever the name
    /// tells of a revision.
    pub fn from_parts(name: &str, revision_number: u64) -> (r: ChainId)
        ensures
            r.name@ == name@,
            r.revision_number == revision_number,
    {
        ChainId { name: name.to_owned(), revision_number }
    }

    pub fn as_str(&self) -> (r: &str)
        ensures
            r@ == self.name@,
    {
        self.name.as_str()
    }

    pub fn revision_number(&self) -> (r: u64)
        ensures
            r == self.revision_number,
    {
        self.revision_number
    }
}

impl Clone for ChainId {
    fn clone(&self) -> (r: ChainId)
        ensures
            r == *self,
    {
        ChainId { name: self.name.clone(), revision_number: self.revision_number }
    }
}

/// The account that submitted a message.
#[derive(Debug, PartialEq, Eq)]
pub struct Signer {
    pub account: String,
}

impl Clone for Signer {
    fn clone(&self) -> (r: Signer)
        ensures
            r == *self,
    {
        Signer { account: self.account.clone() }
    }
}

} // verus!
