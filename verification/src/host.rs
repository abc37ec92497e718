//! The blocks of the host chain that a mock context keeps as its history.

use vstd::prelude::*;
use vstd::utf8::{encode_utf8, is_ascii_chars, is_ascii_chars_encode_utf8};
use tendermint_testgen::Generator;
use crate::client::{
    AnyConsensusState,
    AnyHeader,
    CommitmentRoot,
    MockConsensusState,
    MockHeader,
    TmConsensusState,
    TmHeader,
};
use crate::height::Height;
use crate::identifier::ChainId;
use crate::timestamp::Timestamp;

verus! {

/// The kind of chain that a mock context stands for.
#[derive(Clone, Copy, Debug, PartialEq, Eq, Structural)]
pub enum HostType {
    /// Blocks are bare headers of the stand-in chain.
    Mock,
    /// Blocks are made up to look like those of a Tendermint chain.
    SyntheticTendermint,
}

/// A validator of a made-up Tendermint chain: a name, from which its key is
/// derived, and its voting power.
#[derive(Debug, PartialEq, Eq)]
pub struct Validator {
    pub name: String,
    pub voting_power: u64,
}

impl View for Validator {
    type V = (Seq<char>, u64);

    open spec fn view(&self) -> (Seq<char>, u64) {
        (self.name@, self.voting_power)
    }
}

/// The greatest voting power that the validators of one block can have
/// together.
pub const MAX_TOTAL_VOTING_POWER: u64 = 1_152_921_504_606_846_975;

/// Whether a key can be derived from the name: it must not be empty, and
/// must take at most 32 bytes.
pub open spec fn usable_name(name: Seq<char>) -> bool {
    1 <= encode_utf8(name).len() <= 32
}

/// The voting power of all the validators together.
pub open spec fn total_power(validators: Seq<(Seq<char>, u64)>) -> int
    decreases validators.len(),
{
    if validators.len() == 0 {
        0
    } else {
        total_power(validators.drop_last()) + validators.last().1
    }
}

/// Whether the validators can be those of a block: each has a usable name,
/// and together they do not have more than the greatest total voting power.
pub open spec fn usable_validators(validators: Seq<(Seq<char>, u64)>) -> bool {
    &&& forall|i: int| 0 <= i < validators.len() ==> usable_name((#[trigger] validators[i]).0)
    &&& total_power(validators) <= MAX_TOTAL_VOTING_POWER
}

/// The hash of a set of validators, as `tendermint` computes it for the
/// validators that `tendermint_testgen` derives from their names and voting
/// powers. Two outside functions in a row stand behind the name:
/// `tendermint_testgen::ValidatorSet::generate`, which makes the set from the
/// names and powers, and `tendermint::validator::Set::hash`, which hashes it.
pub uninterp spec fn tm_validator_set_hash(validators: Seq<(Seq<char>, u64)>) -> Seq<u8>;

/// Has `tendermint_testgen` make the validator set (`ValidatorSet::generate`)
/// and takes its hash. The validators must be usable: for others the outside
/// code does not return. The contract names the result: it is a function of
/// the names and voting powers alone.
#[verifier::external_body]
fn testgen_validator_set_hash(validators: &[Validator]) -> (r: [u8; 32])
    requires
        usable_validators(validators_view(validators@)),
    ensures
        r@ == tm_validator_set_hash(validators_view(validators@)),
{
    let vals: Vec<tendermint_testgen::Validator> = validators.iter().map(
        |v| tendermint_testgen::Validator::new(&v.name).voting_power(v.voting_power),
    ).collect();
    match (tendermint_testgen::ValidatorSet { validators: Some(vals) }).generate() {
        Ok(set) => <[u8; 32]>::try_from(set.hash().as_bytes()).unwrap_or([0u8; 32]),
        Err(_) => [0u8; 32],
    }
}

impl Validator {
    pub fn new(name: &str, voting_power: u64) -> (r: Validator)
        ensures
            r@ == (name@, voting_power),
    {
        Validator { name: name.to_owned(), voting_power }
    }

    /// Whether a key can be derived from the validator's name.
    pub fn has_usable_name(&self) -> (r: bool)
        ensures
            r == usable_name(self@.0),
    {
        let len = self.name.as_str().as_bytes().len();
        1 <= len && len <= 32
    }
}

/// Whether the validators can be those of a block.
pub fn validators_usable(validators: &[Validator]) -> (r: bool)
    ensures
        r == usable_validators(validators_view(validators@)),
{
    let ghost views = validators_view(validators@);
    let mut total: u64 = 0;
    let mut i: usize = 0;
    while i < validators.len()
        invariant
            i <= validators.len(),
            views == validators_view(validators@),
            total == total_power(views.subrange(0, i as int)),
            total <= MAX_TOTAL_VOTING_POWER,
            forall|j: int| 0 <= j < i ==> usable_name((#[trigger] views[j]).0),
        decreases validators.len() - i,
    {
        assert(views[i as int] == validators@[i as int]@);
        assert(views.subrange(0, i + 1).drop_last() =~= views.subrange(0, i as int));
        assert(views.subrange(0, i + 1).last() == views[i as int]);
        if !validators[i].has_usable_name() {
            return false;
        }
        if validators[i].voting_power > MAX_TOTAL_VOTING_POWER - total {
            proof {
                lemma_total_power_grows(views, i + 1);
            }
            return false;
        }
        total = total + validators[i].voting_power;
        i += 1;
    }
    assert(views.subrange(0, views.len() as int) =~= views);
    true
}

/// The voting power of the first `n` validators is at most that of all.
pub proof fn lemma_total_power_grows(validators: Seq<(Seq<char>, u64)>, n: int)
    requires
        0 <= n <= validators.len(),
    ensures
        total_power(validators.subrange(0, n)) <= total_power(validators),
    decreases validators.len() - n,
{
    if n < validators.len() {
        lemma_total_power_grows(validators, n + 1);
        assert(validators.subrange(0, n + 1).drop_last() =~= validators.subrange(0, n));
    } else {
        assert(validators.subrange(0, n) =~= validators);
    }
}

/// The hash of a set of validators, where they can be those of a block.
pub fn validator_set_hash(validators: &[Validator]) -> (r: Option<[u8; 32]>)
    ensures
        match r {
            Some(hash) => usable_validators(validators_view(validators@)) && hash@
                == tm_validator_set_hash(validators_view(validators@)),
            None => !usable_validators(validators_view(validators@)),
        },
{
    if validators_usable(validators) {
        Some(testgen_validator_set_hash(validators))
    } else {
        None
    }
}

impl Clone for Validator {
    fn clone(&self) -> (r: Validator)
        ensures
            r == *self,
    {
        Validator { name: self.name.clone(), voting_power: self.voting_power }
    }
}

/// What a list of validators holds.
pub open spec fn validators_view(validators: Seq<Validator>) -> Seq<(Seq<char>, u64)> {
    Seq::new(validators.len(), |i: int| validators[i]@)
}

/// A copy of a list of validators.
pub fn copy_validators(validators: &[Validator]) -> (r: Vec<Validator>)
    ensures
        validators_view(r@) == validators_view(validators@),
{
    let mut out: Vec<Validator> = Vec::new();
    let mut i: usize = 0;
    while i < validators.len()
        invariant
            i <= validators.len(),
            out@.len() == i,
            forall|j: int| 0 <= j < i ==> out@[j]@ == validators@[j]@,
        decreases validators.len() - i,
    {
        out.push(validators[i].clone());
        i += 1;
    }
    assert(validators_view(out@) =~= validators_view(validators@));
    out
}

/// The validators that a made-up Tendermint block has where none are given:
/// two, named "1" and "2", with a voting power of 50 each.
pub open spec fn default_validators() -> Seq<(Seq<char>, u64)> {
    seq![("1"@, 50u64), ("2"@, 50u64)]
}

/// The default validators can be those of a block.
pub proof fn lemma_default_validators_usable()
    ensures
        usable_validators(default_validators()),
{
    reveal_strlit("1");
    reveal_strlit("2");
    let v = default_validators();
    assert(v.drop_last() =~= seq![("1"@, 50u64)]);
    assert(v.drop_last().drop_last() =~= Seq::<(Seq<char>, u64)>::empty());
    assert(total_power(v.drop_last().drop_last()) == 0);
    assert(total_power(v.drop_last()) == 50);
    assert(total_power(v) == 100);
    assert forall|i: int| 0 <= i < v.len() implies usable_name((#[trigger] v[i]).0) by {
        assert(v[i].0.len() == 1);
        assert(is_ascii_chars(v[i].0));
        is_ascii_chars_encode_utf8(v[i].0);
    }
}

/// The validators that a made-up Tendermint block has where none are given.
pub fn make_default_validators() -> (r: Vec<Validator>)
    ensures
        validators_view(r@) == default_validators(),
        usable_validators(validators_view(r@)),
{
    let mut out: Vec<Validator> = Vec::new();
    out.push(Validator::new("1", 50));
    out.push(Validator::new("2", 50));
    assert(validators_view(out@) =~= default_validators());
    proof {
        lemma_default_validators_usable();
    }
    out
}

/// A block made up to look like one of a Tendermint chain.
#[derive(Debug, PartialEq, Eq)]
pub struct SyntheticTmBlock {
    pub chain_id: ChainId,
    pub height: Height,
    pub timestamp: Timestamp,
    /// The validators of this block.
    pub validators: Vec<Validator>,
    /// The validators of the block after this one.
    pub next_validators: Vec<Validator>,
    /// The hash of the set of this block's validators.
    pub validators_hash: [u8; 32],
    /// The hash of the set of the next block's validators.
    pub next_validators_hash: [u8; 32],
}

impl Clone for SyntheticTmBlock {
    fn clone(&self) -> (r: SyntheticTmBlock)
        ensures
            HostBlock::SyntheticTendermint(r)@ == HostBlock::SyntheticTendermint(*self)@,
    {
        SyntheticTmBlock {
            chain_id: self.chain_id.clone(),
            height: self.height,
            timestamp: self.timestamp,
            validators: copy_validators(self.validators.as_slice()),
            next_validators: copy_validators(self.next_validators.as_slice()),
            validators_hash: self.validators_hash,
            next_validators_hash: self.next_validators_hash,
        }
    }
}

/// The root that the consensus state of a made-up block carries: such a block
/// has no application state to commit to.
pub open spec fn synthetic_root() -> Seq<u8> {
    Seq::new(32, |i: int| 0u8)
}

impl SyntheticTmBlock {
    /// The header of the block, to be checked against the consensus state at
    /// the first height of the revision.
    pub open spec fn spec_header(self) -> TmHeader {
        TmHeader {
            chain_id: self.chain_id,
            height: self.height,
            timestamp: self.timestamp,
            trusted_height: Height {
                revision_number: self.chain_id.revision_number,
                revision_height: 1,
            },
            root: CommitmentRoot {
                hash: vstd::array::spec_array_fill_for_copy_type::<u8, 32>(0u8),
            },
            validators_hash: self.validators_hash,
            next_validators_hash: self.next_validators_hash,
        }
    }

    /// The header of the block.
    pub fn header(&self) -> (r: TmHeader)
        ensures
            r == self.spec_header(),
    {
        TmHeader {
            chain_id: self.chain_id.clone(),
            height: self.height,
            timestamp: self.timestamp,
            trusted_height: Height {
                revision_number: self.chain_id.revision_number(),
                revision_height: 1,
            },
            root: CommitmentRoot { hash: [0u8; 32] },
            validators_hash: self.validators_hash,
            next_validators_hash: self.next_validators_hash,
        }
    }

    /// The consensus state that the block gives rise to.
    pub fn consensus_state(&self) -> (r: TmConsensusState)
        ensures
            AnyConsensusState::Tendermint(r) == AnyHeader::Tendermint(
                self.spec_header(),
            ).spec_consensus_state(),
            r.timestamp == self.timestamp,
            r.root@ == synthetic_root(),
            r.next_validators_hash == self.next_validators_hash,
    {
        let r = TmConsensusState {
            timestamp: self.timestamp,
            root: CommitmentRoot { hash: [0u8; 32] },
            next_validators_hash: self.next_validators_hash,
        };
        assert(r.root@ =~= synthetic_root());
        r
    }
}

/// A block of the host chain.
#[derive(Debug, PartialEq, Eq)]
pub enum HostBlock {
    Mock(MockHeader),
    SyntheticTendermint(SyntheticTmBlock),
}

/// What a block of the host chain holds.
pub struct HostBlockView {
    pub host_type: HostType,
    pub height: Height,
    pub timestamp: Timestamp,
    /// The chain's name and revision; a bare header carries none.
    pub chain: Option<(Seq<char>, u64)>,
    pub validators: Seq<(Seq<char>, u64)>,
    pub next_validators: Seq<(Seq<char>, u64)>,
    /// The hashes of the two sets of validators; a bare header carries none.
    pub validator_hashes: Option<(Seq<u8>, Seq<u8>)>,
}

impl View for HostBlock {
    type V = HostBlockView;

    open spec fn view(&self) -> HostBlockView {
        match self {
            HostBlock::Mock(h) => HostBlockView {
                host_type: HostType::Mock,
                height: h.height,
                timestamp: h.timestamp,
                chain: None,
                validators: Seq::empty(),
                next_validators: Seq::empty(),
                validator_hashes: None,
            },
            HostBlock::SyntheticTendermint(b) => HostBlockView {
                host_type: HostType::SyntheticTendermint,
                height: b.height,
                timestamp: b.timestamp,
                chain: Some((b.chain_id.name@, b.chain_id.revision_number)),
                validators: validators_view(b.validators@),
                next_validators: validators_view(b.next_validators@),
                validator_hashes: Some((b.validators_hash@, b.next_validators_hash@)),
            },
        }
    }
}

impl Clone for HostBlock {
    fn clone(&self) -> (r: HostBlock)
        ensures
            r@ == self@,
    {
        match self {
            HostBlock::Mock(h) => HostBlock::Mock(*h),
            HostBlock::SyntheticTendermint(b) => HostBlock::SyntheticTendermint(b.clone()),
        }
    }
}

impl HostBlock {
    /// The header of the block, as a client message carries it.
    pub open spec fn spec_header(self) -> AnyHeader {
        match self {
            HostBlock::Mock(h) => AnyHeader::Mock(h),
            HostBlock::SyntheticTendermint(b) => AnyHeader::Tendermint(b.spec_header()),
        }
    }

    /// The header of the block, as a client message carries it.
    pub fn header(&self) -> (r: AnyHeader)
        ensures
            r == self.spec_header(),
    {
        match self {
            HostBlock::Mock(h) => AnyHeader::Mock(*h),
            HostBlock::SyntheticTendermint(b) => AnyHeader::Tendermint(b.header()),
        }
    }

    /// The consensus state that the block gives rise to.
    pub fn consensus_state(&self) -> (r: AnyConsensusState)
        ensures
            r == self.spec_header().spec_consensus_state(),
    {
        match self {
            HostBlock::Mock(h) => AnyConsensusState::Mock(MockConsensusState { header: *h }),
            HostBlock::SyntheticTendermint(b) => AnyConsensusState::Tendermint(
                b.consensus_state(),
            ),
        }
    }

    /// What `generate_block_with_validators` makes.
    pub open spec fn spec_generate(
        chain_id: ChainId,
        chain_type: HostType,
        height: u64,
        timestamp: Timestamp,
        validators: Seq<(Seq<char>, u64)>,
        next_validators: Seq<(Seq<char>, u64)>,
    ) -> HostBlockView {
        let at = Height { revision_number: chain_id.revision_number, revision_height: height };
        match chain_type {
            HostType::Mock => HostBlockView {
                host_type: HostType::Mock,
                height: at,
                timestamp,
                chain: None,
                validators: Seq::empty(),
                next_validators: Seq::empty(),
                validator_hashes: None,
            },
            HostType::SyntheticTendermint => HostBlockView {
                host_type: HostType::SyntheticTendermint,
                height: at,
                timestamp,
                chain: Some((chain_id.name@, chain_id.revision_number)),
                validators,
                next_validators,
                validator_hashes: Some(
                    (tm_validator_set_hash(validators), tm_validator_set_hash(next_validators)),
                ),
            },
        }
    }

    /// The height of the block.
    pub fn height(&self) -> (r: Height)
        ensures
            r == self@.height,
    {
        match self {
            HostBlock::Mock(h) => h.height,
            HostBlock::SyntheticTendermint(b) => b.height,
        }
    }

    /// The time of the block.
    pub fn timestamp(&self) -> (r: Timestamp)
        ensures
            r == self@.timestamp,
    {
        match self {
            HostBlock::Mock(h) => h.timestamp,
            HostBlock::SyntheticTendermint(b) => b.timestamp,
        }
    }

    /// Makes a block of the given kind at `height` in the revision of
    /// `chain_id`, with the default validators.
    pub fn generate_block(
        chain_id: ChainId,
        chain_type: HostType,
        height: u64,
        timestamp: Timestamp,
    ) -> (r: HostBlock)
        ensures
            r@ == Self::spec_generate(
                chain_id,
                chain_type,
                height,
                timestamp,
                default_validators(),
                default_validators(),
            ),
    {
        let at = Height { revision_number: chain_id.revision_number(), revision_height: height };
        match chain_type {
            HostType::Mock => HostBlock::Mock(MockHeader { height: at, timestamp }),
            HostType::SyntheticTendermint => HostBlock::SyntheticTendermint(
                Self::generate_tm_block(chain_id, height, timestamp),
            ),
        }
    }

    /// Makes a block of the given kind with the given validators, and those
    /// of the block after it.
    pub fn generate_block_with_validators(
        chain_id: ChainId,
        chain_type: HostType,
        height: u64,
        timestamp: Timestamp,
        validators: &[Validator],
        next_validators: &[Validator],
    ) -> (r: HostBlock)
        requires
            chain_type == HostType::SyntheticTendermint ==> usable_validators(
                validators_view(validators@),
            ) && usable_validators(validators_view(next_validators@)),
        ensures
            r@ == Self::spec_generate(
                chain_id,
                chain_type,
                height,
                timestamp,
                validators_view(validators@),
                validators_view(next_validators@),
            ),
    {
        let at = Height { revision_number: chain_id.revision_number(), revision_height: height };
        match chain_type {
            HostType::Mock => HostBlock::Mock(MockHeader { height: at, timestamp }),
            HostType::SyntheticTendermint => HostBlock::SyntheticTendermint(
                SyntheticTmBlock {
                    chain_id,
                    height: at,
                    timestamp,
                    validators: copy_validators(validators),
                    next_validators: copy_validators(next_validators),
                    validators_hash: testgen_validator_set_hash(validators),
                    next_validators_hash: testgen_validator_set_hash(next_validators),
                },
            ),
        }
    }

    /// Makes a Tendermint-like block with the default validators.
    pub fn generate_tm_block(chain_id: ChainId, height: u64, timestamp: Timestamp) -> (r:
        SyntheticTmBlock)
        ensures
            r.chain_id == chain_id,
            HostBlock::SyntheticTendermint(r)@ == Self::spec_generate(
                chain_id,
                HostType::SyntheticTendermint,
                height,
                timestamp,
                default_validators(),
                default_validators(),
            ),
    {
        let at = Height { revision_number: chain_id.revision_number(), revision_height: height };
        let validators = make_default_validators();
        let next_validators = make_default_validators();
        let validators_hash = testgen_validator_set_hash(validators.as_slice());
        let next_validators_hash = testgen_validator_set_hash(next_validators.as_slice());
        SyntheticTmBlock {
            chain_id,
            height: at,
            timestamp,
            validators,
            next_validators,
            validators_hash,
            next_validators_hash,
        }
    }
}

} // verus!
