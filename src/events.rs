//! The unified event vocabulary, the raw output of each sub-protocol, and the
//! requests this crate hands to the sub-protocols.
use vstd::prelude::*;
use vstd::string::StringExecFns;
use core::time::Duration;

use crate::types::{Address, ConnectedPoint, PeerId};

verus! {

/// Event that the composite behaviour reports to the node.
#[derive(Debug)]
pub enum BehaviourOut<TMessage> {
    /// Opened a custom protocol with the remote.
    CustomProtocolOpen {
        /// Version of the protocol that has been opened.
        version: u8,
        /// Id of the node we have opened a connection with.
        peer_id: PeerId,
        /// Endpoint used for this custom protocol.
        endpoint: ConnectedPoint,
    },
    /// Closed a custom protocol with the remote.
    CustomProtocolClosed {
        /// Id of the peer we were connected to.
        peer_id: PeerId,
        /// Endpoint used for this custom protocol.
        endpoint: ConnectedPoint,
        /// Why the substream closed: `Ok` for a graceful exit (EOF), else the error.
        result: Result<(), String>,
    },
    /// Received a message on a custom protocol substream.
    CustomMessage {
        /// Id of the peer the message came from.
        peer_id: PeerId,
        /// Endpoint used for this custom protocol.
        endpoint: ConnectedPoint,
        /// Message that has been received.
        message: TMessage,
    },
    /// A substream with a remote is clogged.
    Clogged {
        /// Id of the peer concerned.
        peer_id: PeerId,
        /// Copy of the messages within the buffer, for diagnostics.
        messages: Vec<TMessage>,
    },
    /// Obtained information about a peer.
    Identified {
        /// Id of the peer that has been identified.
        peer_id: PeerId,
        /// Information about the peer.
        info: IdentifyInfo,
    },
    /// Successfully pinged a peer.
    PingSuccess {
        /// Id of the peer that has been pinged.
        peer_id: PeerId,
        /// Time it took for the ping to come back.
        ping_time: Duration,
    },
}

/// Output of the application-messaging sub-protocol.
#[derive(Debug)]
pub enum CustomProtoOut<TMessage> {
    CustomProtocolOpen { version: u8, peer_id: PeerId, endpoint: ConnectedPoint },
    CustomProtocolClosed { peer_id: PeerId, endpoint: ConnectedPoint, result: Result<(), String> },
    CustomMessage { peer_id: PeerId, endpoint: ConnectedPoint, message: TMessage },
    Clogged { peer_id: PeerId, messages: Vec<TMessage> },
}

/// What a peer reports about itself through the peer-info exchange.
#[derive(Debug, Clone)]
pub struct IdentifyInfo {
    /// The peer's public key, encoded.
    pub public_key: Vec<u8>,
    /// Protocol family and version the peer speaks.
    pub protocol_version: String,
    /// Name and version of the peer's software.
    pub agent_version: String,
    /// Addresses the peer listens on.
    pub listen_addrs: Vec<Address>,
    /// Protocols the peer supports.
    pub protocols: Vec<String>,
}

/// Output of the peer-info exchange sub-protocol.
#[derive(Debug)]
pub enum IdentifyEvent {
    /// A remote answered with its information.
    Identified { peer_id: PeerId, info: IdentifyInfo, observed_addr: Address },
    /// Asking a remote for its information failed.
    Error { peer_id: PeerId, error: String },
    /// Our information was sent back to a remote, or sending it failed.
    SendBack { peer_id: PeerId, result: Result<(), String> },
}

/// Output of the DHT sub-protocol.
#[allow(inconsistent_fields)]
#[derive(Debug)]
pub enum KademliaOut {
    /// A peer was seen, before any insertion in the routing table.
    Discovered { peer_id: PeerId, addresses: Vec<Address> },
    /// A peer entered the routing table, possibly in place of another.
    KBucketAdded { peer_id: PeerId, replaced: Option<PeerId> },
    /// A find-closest-peers query finished.
    FindNodeResult { key: PeerId, closer_peers: Vec<PeerId> },
    /// A get-providers query finished.
    GetProvidersResult { key: Vec<u8>, provider_peers: Vec<PeerId>, closer_peers: Vec<PeerId> },
}

/// Output of the liveness sub-protocol.
#[derive(Debug)]
pub enum PingEvent {
    PingSuccess { peer: PeerId, time: Duration },
}

/// Output of the local-broadcast sub-protocol.
#[derive(Debug)]
pub enum MdnsEvent {
    /// Peers found on the local network, with an address each.
    Discovered(Vec<(PeerId, Address)>),
    /// Peers whose local announcement has lapsed.
    Expired(Vec<(PeerId, Address)>),
}

/// The sub-protocols, in the fixed order of fan-out and polling.
#[derive(Debug, Clone, Copy, PartialEq, Eq, Structural)]
pub enum SubProtocol {
    Ping,
    CustomProtocols,
    Discovery,
    Identify,
    Mdns,
}

/// A request that the composite behaviour hands to a sub-protocol.
#[derive(Debug)]
pub enum Action<TMessage> {
    /// Tell the DHT that `address` reaches `peer_id`.
    AddConnectedAddress { peer_id: PeerId, address: Address },
    /// Tell the messaging sub-protocol that `PeerId` exists and may be dialed.
    AddDiscoveredNode(PeerId),
    /// Send `message` to `peer_id` over the messaging sub-protocol.
    SendPacket { peer_id: PeerId, message: TMessage },
    /// Close the messaging sub-protocol's session with this peer.
    DisconnectPeer(PeerId),
}

/// A condition worth a warning in the node's log.
#[derive(Debug)]
pub enum Warning {
    /// Local discovery was asked for and could not start; it stays off.
    MdnsUnavailable(String),
    /// A peer reported a protocol outside this network's family.
    NonMatchingProtocol { peer_id: PeerId, protocol_version: String },
    /// A peer reported more listen addresses than are kept.
    TooManyAddresses { peer_id: PeerId, reported: usize },
    /// A random DHT query came back empty.
    EmptyRandomQueryResult { key: PeerId },
}

/// `a` asks the DHT to learn that `addr` reaches `p`.
pub open spec fn is_add_address<T>(a: Action<T>, p: Seq<u8>, addr: Seq<u8>) -> bool {
    a matches Action::AddConnectedAddress { peer_id, address } && peer_id@ == p && address@ == addr
}

/// `a` registers `p` as discovered with the messaging sub-protocol.
pub open spec fn is_discovered_node<T>(a: Action<T>, p: Seq<u8>) -> bool {
    a matches Action::AddDiscoveredNode(peer_id) && peer_id@ == p
}

/// The unified event that a messaging sub-protocol event becomes: the same
/// variant with the same fields.
pub open spec fn custom_event_out<T>(e: CustomProtoOut<T>) -> BehaviourOut<T> {
    match e {
        CustomProtoOut::CustomProtocolOpen { version, peer_id, endpoint } =>
            BehaviourOut::CustomProtocolOpen { version, peer_id, endpoint },
        CustomProtoOut::CustomProtocolClosed { peer_id, endpoint, result } =>
            BehaviourOut::CustomProtocolClosed { peer_id, endpoint, result },
        CustomProtoOut::CustomMessage { peer_id, endpoint, message } =>
            BehaviourOut::CustomMessage { peer_id, endpoint, message },
        CustomProtoOut::Clogged { peer_id, messages } =>
            BehaviourOut::Clogged { peer_id, messages },
    }
}

impl<TMessage> From<CustomProtoOut<TMessage>> for BehaviourOut<TMessage> {
    /// The unified event for a messaging sub-protocol event: the same
    /// variant with the same fields.
    fn from(other: CustomProtoOut<TMessage>) -> (r: BehaviourOut<TMessage>) {
        match other {
            CustomProtoOut::CustomProtocolOpen { version, peer_id, endpoint } => {
                BehaviourOut::CustomProtocolOpen { version, peer_id, endpoint }
            },
            CustomProtoOut::CustomProtocolClosed { peer_id, endpoint, result } => {
                BehaviourOut::CustomProtocolClosed { peer_id, endpoint, result }
            },
            CustomProtoOut::CustomMessage { peer_id, endpoint, message } => {
                BehaviourOut::CustomMessage { peer_id, endpoint, message }
            },
            CustomProtoOut::Clogged { peer_id, messages } => {
                BehaviourOut::Clogged { peer_id, messages }
            },
        }
    }
}

impl<TMessage> vstd::std_specs::convert::FromSpecImpl<CustomProtoOut<TMessage>> for BehaviourOut<TMessage> {
    open spec fn obeys_from_spec() -> bool {
        true
    }

    open spec fn from_spec(v: CustomProtoOut<TMessage>) -> BehaviourOut<TMessage> {
        custom_event_out(v)
    }
}

/// The severity of misbehaviour of a peer that is reported.
#[derive(Debug, PartialEq, Eq, Clone)]
pub enum Severity {
    /// Peer is timing out.
    Timeout,
    /// Peer has been notably useless, with the reason.
    Useless(String),
    /// Peer has behaved in an invalid manner, with the reason.
    Bad(String),
}

/// The text of a severity: its name, and the reason in parentheses.
pub open spec fn severity_text(s: Severity) -> Seq<char> {
    match s {
        Severity::Timeout => "Timeout"@,
        Severity::Useless(r) => "Useless ("@ + r@ + ")"@,
        Severity::Bad(r) => "Bad ("@ + r@ + ")"@,
    }
}

impl Severity {
    /// The severity as text, such as `Useless (no answer)`.
    pub fn to_string(&self) -> (r: String)
        ensures
            r@ == severity_text(*self),
    {
        match self {
            Severity::Timeout => String::from_str("Timeout"),
            Severity::Useless(reason) => {
                let mut s = String::from_str("Useless (");
                s.append(reason.as_str());
                s.append(")");
                s
            },
            Severity::Bad(reason) => {
                let mut s = String::from_str("Bad (");
                s.append(reason.as_str());
                s.append(")");
                s
            },
        }
    }
}

} // verus!
