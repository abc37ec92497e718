//! Connection ends: one side of a connection between two chains, and the
//! versions the two sides can agree on.

use vstd::prelude::*;
use crate::error::ConnectionError;
use crate::identifier::{ClientId, ConnectionId};
use crate::table::Stored;
use crate::timestamp::Duration;

verus! {

/// How far the handshake of a connection has come. A connection never moves
/// back in this order.
#[derive(Clone, Copy, Debug, PartialEq, Eq, Structural)]
pub enum State {
    Init,
    TryOpen,
    Open,
}

impl State {
    /// The place of the state in the handshake.
    pub open spec fn rank(self) -> int {
        match self {
            State::Init => 1,
            State::TryOpen => 2,
            State::Open => 3,
        }
    }
}

/// A version of the connection protocol: its number and the channel orderings
/// that it offers.
#[derive(Clone, Copy, Debug, PartialEq, Eq, Structural)]
pub struct Version {
    pub identifier: u64,
    pub ordered: bool,
    pub unordered: bool,
}

impl Version {
    /// Whether a side at `self` can work with a side that proposes `other`: the
    /// same number, and an ordering that both offer.
    pub open spec fn spec_compatible(self, other: Version) -> bool {
        self.identifier == other.identifier && ((self.ordered && other.ordered) || (self.unordered
            && other.unordered))
    }

    /// What the two sides have in common.
    pub open spec fn spec_common(self, other: Version) -> Version {
        Version {
            identifier: self.identifier,
            ordered: self.ordered && other.ordered,
            unordered: self.unordered && other.unordered,
        }
    }

    /// Whether `other` asks for nothing that `self` does not offer.
    pub open spec fn spec_supports(self, other: Version) -> bool {
        self.identifier == other.identifier && (other.ordered ==> self.ordered) && (
        other.unordered ==> self.unordered) && (other.ordered || other.unordered)
    }

    pub fn compatible(&self, other: &Version) -> (r: bool)
        ensures
            r == self.spec_compatible(*other),
    {
        self.identifier == other.identifier && ((self.ordered && other.ordered) || (self.unordered
            && other.unordered))
    }

    pub fn common(&self, other: &Version) -> (r: Version)
        ensures
            r == self.spec_common(*other),
    {
        Version {
            identifier: self.identifier,
            ordered: self.ordered && other.ordered,
            unordered: self.unordered && other.unordered,
        }
    }

    pub fn supports(&self, other: &Version) -> (r: bool)
        ensures
            r == self.spec_supports(*other),
    {
        self.identifier == other.identifier && (!other.ordered || self.ordered) && (
        !other.unordered || self.unordered) && (other.ordered || other.unordered)
    }
}

impl Default for Version {
    /// Version one, with both orderings.
    fn default() -> (r: Version)
        ensures
            r == spec_default_version(),
    {
        Version { identifier: 1, ordered: true, unordered: true }
    }
}

/// The version that this engine speaks.
pub open spec fn spec_default_version() -> Version {
    Version { identifier: 1, ordered: true, unordered: true }
}

/// The versions that this engine can work with.
pub open spec fn spec_compatible_versions() -> Seq<Version> {
    seq![spec_default_version()]
}

/// The versions that this engine can work with.
pub fn get_compatible_versions() -> (r: Vec<Version>)
    ensures
        r@ == spec_compatible_versions(),
{
    let mut v: Vec<Version> = Vec::new();
    v.push(Version::default());
    assert(v@ =~= spec_compatible_versions());
    v
}

/// The first place in `supported` whose version is compatible with one of
/// `proposed`, and the first place in `proposed` that fits it, if any.
pub open spec fn first_match(supported: Seq<Version>, proposed: Seq<Version>) -> Option<
    (int, int),
> {
    if exists|i: int, j: int| is_first_match(supported, proposed, i, j) {
        let (i, j) = choose|i: int, j: int| is_first_match(supported, proposed, i, j);
        Some((i, j))
    } else {
        None
    }
}

/// Place `i` of `supported` fits place `j` of `proposed`.
pub open spec fn fits(supported: Seq<Version>, proposed: Seq<Version>, i: int, j: int) -> bool {
    0 <= i < supported.len() && 0 <= j < proposed.len() && supported[i].spec_compatible(
        proposed[j],
    )
}

/// `(i, j)` is the first fitting pair, going through `supported` first.
pub open spec fn is_first_match(
    supported: Seq<Version>,
    proposed: Seq<Version>,
    i: int,
    j: int,
) -> bool {
    &&& fits(supported, proposed, i, j)
    &&& forall|a: int, b: int| fits(supported, proposed, a, b) ==> i < a || (i == a && j <= b)
}

/// The version that two sides settle on: what the first fitting pair has in
/// common. There is none where no pair fits.
pub open spec fn spec_pick_version(supported: Seq<Version>, proposed: Seq<Version>) -> Option<
    Version,
> {
    match first_match(supported, proposed) {
        Some((i, j)) => Some(supported[i].spec_common(proposed[j])),
        None => None,
    }
}

/// Settles on a version out of what this side supports and what the other
/// side proposes.
pub fn pick_version(supported: &Vec<Version>, proposed: &Vec<Version>) -> (r: Result<
    Version,
    ConnectionError,
>)
    ensures
        match r {
            Ok(v) => spec_pick_version(supported@, proposed@) == Some(v),
            Err(e) => spec_pick_version(supported@, proposed@) is None && e
                == ConnectionError::VersionMismatch,
        },
{
    let mut i: usize = 0;
    while i < supported.len()
        invariant
            i <= supported.len(),
            forall|a: int, b: int| 0 <= a < i ==> !fits(supported@, proposed@, a, b),
        decreases supported.len() - i,
    {
        let mut j: usize = 0;
        while j < proposed.len()
            invariant
                i < supported.len(),
                j <= proposed.len(),
                forall|a: int, b: int| 0 <= a < i ==> !fits(supported@, proposed@, a, b),
                forall|b: int| 0 <= b < j ==> !fits(supported@, proposed@, i as int, b),
            decreases proposed.len() - j,
        {
            if supported[i].compatible(&proposed[j]) {
                proof {
                    let (s, p) = (supported@, proposed@);
                    assert(is_first_match(s, p, i as int, j as int));
                    let (a, b) = choose|a: int, b: int| is_first_match(s, p, a, b);
                    assert(is_first_match(s, p, a, b));
                    assert(fits(s, p, a, b));
                    assert(fits(s, p, i as int, j as int));
                    assert(a == i && b == j);
                }
                return Ok(supported[i].common(&proposed[j]));
            }
            j += 1;
        }
        i += 1;
    }
    proof {
        let (s, p) = (supported@, proposed@);
        assert forall|a: int, b: int| !is_first_match(s, p, a, b) by {
            if is_first_match(s, p, a, b) {
                assert(fits(s, p, a, b));
            }
        }
    }
    Err(ConnectionError::VersionMismatch)
}

/// Whether some version of `versions` supports `version`.
pub open spec fn spec_any_supports(versions: Seq<Version>, version: Version) -> bool {
    exists|i: int| 0 <= i < versions.len() && (#[trigger] versions[i]).spec_supports(version)
}

/// Whether some version of `versions` supports `version`.
pub fn any_supports(versions: &Vec<Version>, version: &Version) -> (r: bool)
    ensures
        r == spec_any_supports(versions@, *version),
{
    let mut i: usize = 0;
    while i < versions.len()
        invariant
            i <= versions.len(),
            forall|a: int| 0 <= a < i ==> !(#[trigger] versions@[a]).spec_supports(*version),
        decreases versions.len() - i,
    {
        if versions[i].supports(version) {
            return true;
        }
        i += 1;
    }
    false
}

/// A copy of a list of versions.
pub fn copy_versions(versions: &Vec<Version>) -> (r: Vec<Version>)
    ensures
        r@ == versions@,
{
    let mut out: Vec<Version> = Vec::new();
    let mut i: usize = 0;
    while i < versions.len()
        invariant
            i <= versions.len(),
            out@ == versions@.subrange(0, i as int),
        decreases versions.len() - i,
    {
        out.push(versions[i]);
        i += 1;
        assert(out@ =~= versions@.subrange(0, i as int));
    }
    assert(versions@.subrange(0, versions@.len() as int) =~= versions@);
    out
}

/// The prefix under which the counterparty keeps its protocol store.
#[derive(Debug, PartialEq, Eq)]
pub struct CommitmentPrefix {
    pub key: String,
}

impl Clone for CommitmentPrefix {
    fn clone(&self) -> (r: CommitmentPrefix)
        ensures
            r == *self,
    {
        CommitmentPrefix { key: self.key.clone() }
    }
}

impl Default for CommitmentPrefix {
    fn default() -> (r: CommitmentPrefix)
        ensures
            r.key@ == "ibc"@,
    {
        CommitmentPrefix { key: "ibc".to_owned() }
    }
}

/// The other side of a connection, as this side knows it.
#[derive(Debug, PartialEq, Eq)]
pub struct Counterparty {
    pub client_id: ClientId,
    pub connection_id: Option<ConnectionId>,
    pub prefix: CommitmentPrefix,
}

impl Counterparty {
    pub fn new(client_id: ClientId, connection_id: Option<ConnectionId>, prefix: CommitmentPrefix) -> (r:
        Counterparty)
        ensures
            r == (Counterparty { client_id, connection_id, prefix }),
    {
        Counterparty { client_id, connection_id, prefix }
    }
}

impl Clone for Counterparty {
    fn clone(&self) -> (r: Counterparty)
        ensures
            r == *self,
    {
        Counterparty {
            client_id: self.client_id,
            connection_id: self.connection_id,
            prefix: self.prefix.clone(),
        }
    }
}

/// One side of a connection.
#[derive(Debug, PartialEq, Eq)]
pub struct ConnectionEnd {
    pub state: State,
    pub client_id: ClientId,
    pub counterparty: Counterparty,
    pub versions: Vec<Version>,
    pub delay_period: Duration,
}

/// What a connection end holds.
pub struct ConnectionEndView {
    pub state: State,
    pub client_id: ClientId,
    pub counterparty_client_id: ClientId,
    pub counterparty_connection_id: Option<ConnectionId>,
    pub counterparty_prefix: Seq<char>,
    pub versions: Seq<Version>,
    pub delay_period: Duration,
}

impl View for ConnectionEnd {
    type V = ConnectionEndView;

    open spec fn view(&self) -> ConnectionEndView {
        ConnectionEndView {
            state: self.state,
            client_id: self.client_id,
            counterparty_client_id: self.counterparty.client_id,
            counterparty_connection_id: self.counterparty.connection_id,
            counterparty_prefix: self.counterparty.prefix.key@,
            versions: self.versions@,
            delay_period: self.delay_period,
        }
    }
}

impl Clone for ConnectionEnd {
    fn clone(&self) -> (r: ConnectionEnd)
        ensures
            r@ == self@,
    {
        ConnectionEnd {
            state: self.state,
            client_id: self.client_id,
            counterparty: self.counterparty.clone(),
            versions: copy_versions(&self.versions),
            delay_period: self.delay_period,
        }
    }
}

impl Stored for ConnectionEnd {
    fn duplicate(&self) -> (r: Self) {
        self.clone()
    }
}

impl ConnectionEnd {
    pub fn new(
        state: State,
        client_id: ClientId,
        counterparty: Counterparty,
        versions: Vec<Version>,
        delay_period: Duration,
    ) -> (r: ConnectionEnd)
        ensures
            r == (ConnectionEnd { state, client_id, counterparty, versions, delay_period }),
    {
        ConnectionEnd { state, client_id, counterparty, versions, delay_period }
    }

    pub fn state_matches(&self, state: State) -> (r: bool)
        ensures
            r == (self.state == state),
    {
        match (self.state, state) {
            (State::Init, State::Init) => true,
            (State::TryOpen, State::TryOpen) => true,
            (State::Open, State::Open) => true,
            _ => false,
        }
    }

    pub fn is_open(&self) -> (r: bool)
        ensures
            r == (self.state == State::Open),
    {
        self.state_matches(State::Open)
    }

    /// The same end in another state.
    pub fn with_state(self, state: State) -> (r: ConnectionEnd)
        ensures
            r@ == (ConnectionEndView { state, ..self@ }),
    {
        ConnectionEnd {
            state,
            client_id: self.client_id,
            counterparty: self.counterparty,
            versions: self.versions,
            delay_period: self.delay_period,
        }
    }
}

} // verus!
