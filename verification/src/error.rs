//! What can go wrong, by layer of the protocol.

use vstd::prelude::*;
use crate::height::Height;
use crate::identifier::ClientId;

verus! {

/// Failures of the client layer.
#[derive(Clone, Copy, Debug, PartialEq, Eq, Structural)]
pub enum ClientError {
    /// No client state is stored under the identifier.
    ClientNotFound,
    /// No consensus state is stored for the client at the height.
    ConsensusStateNotFound,
    /// No time of processing is recorded for the consensus state.
    ProcessedTimeNotFound,
    /// No height of processing is recorded for the consensus state.
    ProcessedHeightNotFound,
    /// The client was frozen after misbehaviour.
    ClientFrozen,
    /// The trusting period of the client's latest consensus state has run out.
    ClientExpired,
    /// The proof was taken at a height beyond the client's latest height.
    InvalidProofHeight,
    /// The header does not check out against the trusted consensus state.
    HeaderVerificationFailure,
    /// A proof of membership or of absence was not accepted.
    VerificationFailure,
    /// The type tag of an encoded state names no known client type.
    UnknownClientType,
    /// The payload under a known type tag does not decode.
    MalformedState,
    /// The message is for another client type than the stored client state.
    HeaderMismatch,
    /// The two headers handed in as evidence do not contradict each other.
    NoMisbehaviour,
    /// The initial client and consensus state do not fit together.
    InvalidInitialState,
    /// The host has handed out every client number.
    CounterOverflow,
}

/// Failures of the connection layer.
#[derive(Clone, Copy, Debug, PartialEq, Eq, Structural)]
pub enum ConnectionError {
    /// No connection end is stored under the identifier.
    ConnectionNotFound,
    /// The connection end is not in the state that the step needs.
    StateMismatch,
    /// The two sides support no version in common.
    VersionMismatch,
    /// The proof of the counterparty's connection end was not accepted.
    ProofFailure,
    /// The connection's delay period has not yet passed for the proof's height.
    DelayNotPassed,
    /// The counterparty's connection identifier is not known yet.
    MissingCounterparty,
    /// The host has handed out every connection number.
    CounterOverflow,
}

/// Failures of the channel layer.
#[derive(Clone, Copy, Debug, PartialEq, Eq, Structural)]
pub enum ChannelError {
    /// No channel end is stored under the port and channel.
    ChannelNotFound,
    /// The channel end is not in the state that the step needs.
    StateMismatch,
    /// The ordering asked for is not one the connection's version supports.
    OrderingMismatch,
    /// The application module turned the step down.
    ModuleRejected,
    /// The proof of the counterparty's channel end was not accepted.
    ProofFailure,
    /// The connection under the channel is not open.
    ConnectionNotOpen,
    /// A channel runs over exactly one connection.
    InvalidConnectionHops,
    /// The counterparty's channel identifier is not known yet.
    MissingCounterparty,
    /// The host has handed out every channel number.
    CounterOverflow,
}

/// Failures of the packet layer.
#[derive(Clone, Copy, Debug, PartialEq, Eq, Structural)]
pub enum PacketError {
    /// The packet's timeout has already passed.
    TimeoutElapsed,
    /// The packet's timeout has not passed yet, so it cannot be timed out.
    TimeoutNotReached,
    /// The packet's sequence number is not the one that is due.
    SequenceMismatch,
    /// No sequence counter is stored for the channel.
    SequenceNotFound,
    /// No commitment is stored for the packet.
    CommitmentNotFound,
    /// The stored commitment is not the commitment of this packet.
    CommitmentMismatch,
    /// A receipt for the packet is already stored.
    ReceiptExists,
    /// No receipt is stored for the packet.
    ReceiptNotFound,
    /// An acknowledgement for the packet is already stored.
    AcknowledgementExists,
    /// No acknowledgement is stored for the packet.
    AcknowledgementNotFound,
    /// The packet names another counterparty than the channel end does.
    CounterpartyMismatch,
    /// The proof about the counterparty's packet state was not accepted.
    ProofFailure,
    /// The application module turned the packet down.
    ModuleRejected,
    /// The channel has used up its sequence numbers.
    SequenceOverflow,
}

/// A failure of any layer, as the handlers and the host context report it.
#[derive(Clone, Copy, Debug, PartialEq, Eq, Structural)]
pub enum ContextError {
    Client(ClientError),
    Connection(ConnectionError),
    Channel(ChannelError),
    Packet(PacketError),
}

/// Failures of routing a message to its application module.
#[derive(Clone, Copy, Debug, PartialEq, Eq, Structural)]
pub enum RouterError {
    /// A handler or the host context failed.
    Context(ContextError),
    /// No module is bound to the port.
    UnknownPort,
    /// The module bound to the port is not registered.
    ModuleNotFound,
}

/// Failures of handing a message to a chain.
#[derive(Clone, Copy, Debug, PartialEq, Eq, Structural)]
pub enum RelayerError {
    /// The destination chain holds no state for the client.
    ClientStateNotFound { client_id: ClientId },
    /// The client on the destination chain is already at the source's height.
    ClientAlreadyUpToDate { client_id: ClientId, source_height: Height, destination_height: Height },
    /// The client on the destination chain is ahead of the source chain.
    ClientAtHigherHeight { client_id: ClientId, source_height: Height, destination_height: Height },
    /// The chain's handlers turned the message down.
    TransactionFailed(RouterError),
    /// A failure of the connection layer.
    Ics03(ConnectionError),
}

} // verus!
