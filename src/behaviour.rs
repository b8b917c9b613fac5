//! The composite behaviour: owns the discovery state and the queue of
//! unified events, maps each sub-protocol's output, and collects the
//! requests meant for the sub-protocols.
use vstd::prelude::*;
use core::time::Duration;

use crate::discovery::{
    add_entry, addr_views, names_peer, delay_after, table_view, DiscoveryBehaviour, DiscoveryPoll, TableView,
};
use crate::events::{
    custom_event_out, is_add_address, is_discovered_node, Action, BehaviourOut, CustomProtoOut,
    IdentifyEvent, IdentifyInfo, KademliaOut, MdnsEvent, PingEvent, SubProtocol, Warning,
};
use crate::types::{Address, PeerId};

verus! {

/// Most listen addresses kept from one peer's report.
pub const MAX_LISTEN_ADDRS: usize = 30;

/// `pat` occurs in `hay` as a contiguous run.
pub open spec fn contains_seq(hay: Seq<u8>, pat: Seq<u8>) -> bool {
    exists|i: int| 0 <= i && i + pat.len() <= hay.len() && #[trigger] hay.subrange(i, i + pat.len()) == pat
}

/// The listen addresses kept from a report: the first ones, up to the cap.
pub open spec fn kept_addrs(addrs: Seq<Address>) -> Seq<Address> {
    if addrs.len() > MAX_LISTEN_ADDRS {
        addrs.subrange(0, MAX_LISTEN_ADDRS as int)
    } else {
        addrs
    }
}

/// The sub-protocols in the order of fan-out and polling; local discovery
/// only when it runs.
pub open spec fn sub_protocol_order(mdns: bool) -> Seq<SubProtocol> {
    let base = seq![
        SubProtocol::Ping,
        SubProtocol::CustomProtocols,
        SubProtocol::Discovery,
        SubProtocol::Identify,
    ];
    if mdns {
        base.push(SubProtocol::Mdns)
    } else {
        base
    }
}

/// Whether `hay` contains `pat` as a contiguous run.
fn bytes_contain(hay: &[u8], pat: &[u8]) -> (r: bool)
    ensures
        r == contains_seq(hay@, pat@),
{
    let n = hay.len();
    let m = pat.len();
    if m > n {
        return false;
    }
    let mut i: usize = 0;
    while i <= n - m
        invariant
            n == hay@.len(),
            m == pat@.len(),
            m <= n,
            0 <= i <= n - m + 1,
            forall|k: int| 0 <= k < i ==> #[trigger] hay@.subrange(k, k + m) != pat@,
        decreases n - m + 1 - i,
    {
        let mut j: usize = 0;
        while j < m && hay[i + j] == pat[j]
            invariant
                n == hay@.len(),
                m == pat@.len(),
                i + m <= n,
                0 <= j <= m,
                hay@.subrange(i as int, i + j) == pat@.subrange(0, j as int),
            decreases m - j,
        {
            assert(hay@.subrange(i as int, i + j + 1) == hay@.subrange(i as int, i + j).push(hay@[i + j]));
            assert(pat@.subrange(0, j + 1) == pat@.subrange(0, j as int).push(pat@[j as int]));
            j += 1;
        }
        if j == m {
            assert(pat@.subrange(0, m as int) == pat@);
            return true;
        }
        assert(hay@.subrange(i as int, i + m)[j as int] != pat@[j as int]);
        i += 1;
    }
    assert forall|k: int| 0 <= k && k + m <= n implies #[trigger] hay@.subrange(k, k + m) != pat@ by {
        assert(k < i);
    }
    false
}

/// General behaviour of the network node.
pub struct Behaviour<TMessage> {
    /// Static addresses and the random query schedule.
    discovery: DiscoveryBehaviour,
    /// Whether local discovery runs.
    mdns: bool,
    /// Name of this network's protocol family, as peers report it.
    protocol_name: String,
    /// Queue of events to produce for the outside.
    events: Vec<BehaviourOut<TMessage>>,
    /// Requests for the sub-protocols, in the order they were made.
    actions: Vec<Action<TMessage>>,
    /// Conditions to report in the log, in the order they arose.
    warnings: Vec<Warning>,
}

impl<TMessage> Behaviour<TMessage> {
    /// Builds the behaviour. `known_addresses` seeds the static table, and
    /// each of its entries is handed to the DHT. `protocol_name` names this
    /// network's protocol family. Local discovery runs when `enable_mdns` is
    /// set and `mdns_start`, the outcome of starting it, is `Ok`; a failure
    /// to start it is a warning and the node goes on without it. The first
    /// random query is due at `now`.
    pub fn new(
        known_addresses: Vec<(PeerId, Address)>,
        protocol_name: String,
        enable_mdns: bool,
        mdns_start: Result<(), String>,
        now: u64,
    ) -> (r: Self)
        ensures
            r.wf(),
            r.table() == table_view(known_addresses@),
            r.disc().next_query_at() == now,
            r.disc().delay() == delay_after(0),
            r.protocol() == protocol_name@,
            r.mdns_active() == (enable_mdns && mdns_start is Ok),
            r.events().len() == 0,
            r.actions().len() == known_addresses@.len(),
            forall|k: int| 0 <= k < known_addresses@.len() ==> is_add_address(
                #[trigger] r.actions()[k],
                known_addresses@[k].0@,
                known_addresses@[k].1@,
            ),
            enable_mdns && mdns_start is Err ==> r.warnings() == seq![
                Warning::MdnsUnavailable(mdns_start->Err_0),
            ],
            !(enable_mdns && mdns_start is Err) ==> r.warnings().len() == 0,
    {
        let mut actions: Vec<Action<TMessage>> = Vec::new();
        let mut i: usize = 0;
        while i < known_addresses.len()
            invariant
                0 <= i <= known_addresses@.len(),
                actions@.len() == i,
                forall|k: int| 0 <= k < i ==> is_add_address(
                    #[trigger] actions@[k],
                    known_addresses@[k].0@,
                    known_addresses@[k].1@,
                ),
            decreases known_addresses@.len() - i,
        {
            let entry = &known_addresses[i];
            actions.push(
                Action::AddConnectedAddress {
                    peer_id: entry.0.duplicate(),
                    address: entry.1.duplicate(),
                },
            );
            i += 1;
        }
        let mut warnings: Vec<Warning> = Vec::new();
        let mdns = if enable_mdns {
            match mdns_start {
                Ok(()) => true,
                Err(err) => {
                    warnings.push(Warning::MdnsUnavailable(err));
                    false
                },
            }
        } else {
            false
        };
        Behaviour {
            discovery: DiscoveryBehaviour::new(known_addresses, now),
            mdns,
            protocol_name,
            events: Vec::new(),
            actions,
            warnings,
        }
    }

    /// Sends a message to a peer. Has no effect if the messaging sub-protocol
    /// has no open session with the peer; even with one, the remote may have
    /// closed it unseen, and the message is then lost.
    pub fn send_custom_message(&mut self, target: &PeerId, data: TMessage)
        ensures
            final(self).same_but_actions(old(self)),
            final(self).actions().len() == old(self).actions().len() + 1,
            final(self).actions().drop_last() == old(self).actions(),
            final(self).actions().last() matches Action::SendPacket { peer_id, message }
                && peer_id@ == target@ && message == data,
    {
        self.actions.push(Action::SendPacket { peer_id: target.duplicate(), message: data });
        assert(self.actions@.drop_last() == old(self).actions@);
    }

    /// Adds a hard-coded address for the given peer, that never expires,
    /// unless the static table already holds exactly that entry.
    pub fn add_known_address(&mut self, peer_id: PeerId, addr: Address)
        ensures
            final(self).table() == add_entry(old(self).table(), peer_id@, addr@),
            final(self).disc().next_query_at() == old(self).disc().next_query_at(),
            final(self).disc().delay() == old(self).disc().delay(),
            final(self).mdns_active() == old(self).mdns_active(),
            final(self).protocol() == old(self).protocol(),
            final(self).events() == old(self).events(),
            final(self).actions() == old(self).actions(),
            final(self).warnings() == old(self).warnings(),
    {
        self.discovery.add_known_address(peer_id, addr);
    }

    /// Asks the messaging sub-protocol to close its session with the peer.
    /// The closing event comes later, once it has happened; nothing happens if
    /// no session is open. The other sub-protocols keep the peer.
    pub fn drop_node(&mut self, peer_id: &PeerId)
        ensures
            final(self).same_but_actions(old(self)),
            final(self).actions().len() == old(self).actions().len() + 1,
            final(self).actions().drop_last() == old(self).actions(),
            final(self).actions().last() matches Action::DisconnectPeer(p) && p@ == peer_id@,
    {
        self.actions.push(Action::DisconnectPeer(peer_id.duplicate()));
        assert(self.actions@.drop_last() == old(self).actions@);
    }

    /// The sub-protocols, in the fixed order in which connection events are
    /// handed to them and their output is polled.
    pub fn sub_protocols(&self) -> (r: Vec<SubProtocol>)
        ensures
            r@ == sub_protocol_order(self.mdns_active()),
    {
        let mut v: Vec<SubProtocol> = Vec::new();
        v.push(SubProtocol::Ping);
        v.push(SubProtocol::CustomProtocols);
        v.push(SubProtocol::Discovery);
        v.push(SubProtocol::Identify);
        if self.mdns {
            v.push(SubProtocol::Mdns);
        }
        assert(v@ == sub_protocol_order(self.mdns));
        v
    }

    /// Every address known for `peer_id`: the static entries first, then
    /// `dht_addresses`, those the DHT associates with it.
    pub fn addresses_of_peer(&self, peer_id: &PeerId, dht_addresses: Vec<Address>) -> (r: Vec<
        Address,
    >)
        ensures
            addr_views(r@) == crate::discovery::static_matches(self.table(), peer_id@)
                + addr_views(dht_addresses@),
            r@.len() == 0 <==> (!names_peer(self.table(), peer_id@) && dht_addresses@.len() == 0),
    {
        self.discovery.addresses_of_peer(peer_id, dht_addresses)
    }

    /// Takes in an event of the messaging sub-protocol: it is queued as the
    /// matching unified event, unchanged.
    pub fn inject_custom_event(&mut self, event: CustomProtoOut<TMessage>)
        ensures
            final(self).same_but_events(old(self)),
            final(self).events() == old(self).events().push(custom_event_out(event)),
    {
        self.events.push(BehaviourOut::from(event));
    }

    /// Takes in an event of the peer-info exchange.
    ///
    /// For an identified peer: a protocol outside this network's family is a
    /// warning, and so is a report of more than `MAX_LISTEN_ADDRS` listen
    /// addresses, of which only the first are kept. Each kept address is
    /// handed to the DHT for the peer, in order; the peer is then registered
    /// as discovered, and an `Identified` event with the kept information is
    /// queued, whatever the warnings. Other peer-info events change nothing.
    pub fn inject_identify_event(&mut self, event: IdentifyEvent)
        ensures
            final(self).disc() == old(self).disc(),
            final(self).mdns_active() == old(self).mdns_active(),
            final(self).protocol() == old(self).protocol(),
            !(event is Identified) ==> *final(self) == *old(self),
            event matches IdentifyEvent::Identified { peer_id, info, .. } ==> {
                let kept = kept_addrs(info.listen_addrs@);
                let n_old = old(self).actions().len();
                let w_old = old(self).warnings().len();
                let mismatch = !contains_seq(
                    vstd::utf8::encode_utf8(info.protocol_version@),
                    vstd::utf8::encode_utf8(old(self).protocol()),
                );
                let too_many = info.listen_addrs@.len() > MAX_LISTEN_ADDRS;
                let w_mis: int = if mismatch { 1 } else { 0 };
                let w_many: int = if too_many { 1 } else { 0 };
                &&& final(self).events().drop_last() == old(self).events()
                &&& final(self).events().len() == old(self).events().len() + 1
                &&& final(self).events().last() matches BehaviourOut::Identified { peer_id: p, info: i }
                    && p == peer_id
                    && i.public_key == info.public_key
                    && i.protocol_version == info.protocol_version
                    && i.agent_version == info.agent_version
                    && i.protocols == info.protocols
                    && i.listen_addrs@ == kept
                &&& final(self).actions().len() == n_old + kept.len() + 1
                &&& final(self).actions().subrange(0, n_old as int) == old(self).actions()
                &&& forall|k: int| 0 <= k < kept.len() ==> is_add_address(
                    #[trigger] final(self).actions()[n_old + k],
                    peer_id@,
                    kept[k]@,
                )
                &&& is_discovered_node(final(self).actions().last(), peer_id@)
                &&& final(self).warnings().len() == w_old + w_mis + w_many
                &&& final(self).warnings().subrange(0, w_old as int) == old(self).warnings()
                &&& mismatch ==> (final(self).warnings()[w_old as int] matches
                    Warning::NonMatchingProtocol { peer_id: p, protocol_version: v }
                    && p@ == peer_id@ && v@ == info.protocol_version@)
                &&& too_many ==> (final(self).warnings()[w_old + w_mis] matches
                    Warning::TooManyAddresses { peer_id: p, reported }
                    && p@ == peer_id@ && reported == info.listen_addrs@.len())
            },
    {
        match event {
            IdentifyEvent::Identified { peer_id, info, .. } => {
                let mut info = info;
                let ghost old_info = info;
                let ghost w_old = self.warnings@.len();
                if !bytes_contain(info.protocol_version.as_str().as_bytes(), self.protocol_name.as_str().as_bytes()) {
                    self.warnings.push(
                        Warning::NonMatchingProtocol {
                            peer_id: peer_id.duplicate(),
                            protocol_version: info.protocol_version.clone(),
                        },
                    );
                }
                let ghost w_mid = self.warnings@.len();
                let reported = info.listen_addrs.len();
                if reported > MAX_LISTEN_ADDRS {
                    self.warnings.push(
                        Warning::TooManyAddresses { peer_id: peer_id.duplicate(), reported },
                    );
                    info.listen_addrs.truncate(MAX_LISTEN_ADDRS);
                }
                assert(self.warnings@.subrange(0, w_old as int) =~= old(self).warnings@);
                assert(info.listen_addrs@ =~= kept_addrs(old_info.listen_addrs@));
                let ghost n_old = self.actions@.len();
                let ghost w_after = self.warnings@;
                let mut i: usize = 0;
                while i < info.listen_addrs.len()
                    invariant
                        0 <= i <= info.listen_addrs@.len(),
                        n_old == old(self).actions@.len(),
                        self.warnings@ == w_after,
                        self.discovery == old(self).discovery,
                        self.mdns == old(self).mdns,
                        self.protocol_name == old(self).protocol_name,
                        self.events@ == old(self).events@,
                        self.actions@.len() == n_old + i,
                        self.actions@.subrange(0, n_old as int) == old(self).actions@,
                        forall|k: int| 0 <= k < i ==> is_add_address(
                            #[trigger] self.actions@[n_old + k],
                            peer_id@,
                            info.listen_addrs@[k]@,
                        ),
                    decreases info.listen_addrs@.len() - i,
                {
                    self.actions.push(
                        Action::AddConnectedAddress {
                            peer_id: peer_id.duplicate(),
                            address: info.listen_addrs[i].duplicate(),
                        },
                    );
                    assert(self.actions@.subrange(0, n_old as int) =~= old(self).actions@);
                    i += 1;
                }
                self.actions.push(Action::AddDiscoveredNode(peer_id.duplicate()));
                assert(self.actions@.subrange(0, n_old as int) =~= old(self).actions@);
                self.events.push(BehaviourOut::Identified { peer_id, info });
                assert(self.events@.drop_last() == old(self).events@);
            },
            IdentifyEvent::Error { .. } => {},
            // A failure to send our own information back is not the node's concern.
            IdentifyEvent::SendBack { .. } => {},
        }
    }

    /// Takes in an event of the liveness sub-protocol: a successful ping is
    /// queued with its round-trip time.
    pub fn inject_ping_event(&mut self, event: PingEvent)
        ensures
            final(self).same_but_events(old(self)),
            final(self).events() == old(self).events().push(
                match event {
                    PingEvent::PingSuccess { peer, time } => BehaviourOut::PingSuccess {
                        peer_id: peer,
                        ping_time: time,
                    },
                },
            ),
    {
        match event {
            PingEvent::PingSuccess { peer, time } => {
                self.events.push(BehaviourOut::PingSuccess { peer_id: peer, ping_time: time });
            },
        }
    }

    /// Takes in an event of the DHT. A peer that enters the routing table is
    /// registered as discovered with the messaging sub-protocol; an empty
    /// answer to a closest-peers query is a warning; the rest is dropped. No
    /// unified event comes of it.
    pub fn inject_kademlia_event(&mut self, event: KademliaOut)
        ensures
            final(self).disc() == old(self).disc(),
            final(self).mdns_active() == old(self).mdns_active(),
            final(self).protocol() == old(self).protocol(),
            final(self).events() == old(self).events(),
            final(self).actions() == (match event {
                KademliaOut::KBucketAdded { peer_id, .. } => old(self).actions().push(
                    Action::AddDiscoveredNode(peer_id),
                ),
                _ => old(self).actions(),
            }),
            final(self).warnings() == (match event {
                KademliaOut::FindNodeResult { key, closer_peers } => if closer_peers@.len() == 0 {
                    old(self).warnings().push(Warning::EmptyRandomQueryResult { key })
                } else {
                    old(self).warnings()
                },
                _ => old(self).warnings(),
            }),
    {
        match event {
            KademliaOut::Discovered { .. } => {},
            KademliaOut::KBucketAdded { peer_id, .. } => {
                self.actions.push(Action::AddDiscoveredNode(peer_id));
            },
            KademliaOut::FindNodeResult { key, closer_peers } => {
                if closer_peers.len() == 0 {
                    self.warnings.push(Warning::EmptyRandomQueryResult { key });
                }
            },
            // No get-providers query is ever started.
            KademliaOut::GetProvidersResult { .. } => {},
        }
    }

    /// Takes in an event of local discovery: each peer found is registered as
    /// discovered with the messaging sub-protocol, in order; expiries are
    /// dropped. No unified event comes of it.
    pub fn inject_mdns_event(&mut self, event: MdnsEvent)
        ensures
            final(self).same_but_actions(old(self)),
            event matches MdnsEvent::Expired(_) ==> final(self).actions() == old(self).actions(),
            event matches MdnsEvent::Discovered(list) ==> {
                &&& final(self).actions().len() == old(self).actions().len() + list@.len()
                &&& final(self).actions().subrange(0, old(self).actions().len() as int)
                    == old(self).actions()
                &&& forall|k: int| 0 <= k < list@.len() ==> is_discovered_node(
                    #[trigger] final(self).actions()[old(self).actions().len() + k],
                    list@[k].0@,
                )
            },
    {
        match event {
            MdnsEvent::Discovered(list) => {
                let ghost start = self.actions@.len();
                let mut i: usize = 0;
                while i < list.len()
                    invariant
                        0 <= i <= list@.len(),
                        self.same_but_actions(old(self)),
                        self.actions@.len() == start + i,
                        start == old(self).actions@.len(),
                        self.actions@.subrange(0, start as int) == old(self).actions@,
                        forall|k: int| 0 <= k < i ==> is_discovered_node(
                            #[trigger] self.actions@[start + k],
                            list@[k].0@,
                        ),
                    decreases list@.len() - i,
                {
                    self.actions.push(Action::AddDiscoveredNode(list[i].0.duplicate()));
                    assert(self.actions@.subrange(0, start as int) =~= old(self).actions@);
                    i += 1;
                }
            },
            MdnsEvent::Expired(_) => {},
        }
    }

    /// Next event for the outside: the head of the queue, or `None` when the
    /// queue is empty, in which case nothing changes.
    pub fn poll(&mut self) -> (r: Option<BehaviourOut<TMessage>>)
        ensures
            old(self).events().len() == 0 ==> r is None && *final(self) == *old(self),
            old(self).events().len() > 0 ==> {
                &&& r == Some(old(self).events()[0])
                &&& final(self).events() == old(self).events().drop_first()
                &&& final(self).same_but_events(old(self))
            },
    {
        if self.events.len() > 0 {
            Some(self.events.remove(0))
        } else {
            None
        }
    }

    /// One poll of the discovery subsystem; see [`DiscoveryBehaviour::poll`].
    pub fn poll_discovery(&mut self, dht_ready: bool, now: u64, random_peer: PeerId) -> (r:
        DiscoveryPoll)
        ensures
            old(self).wf() ==> final(self).wf(),
            final(self).table() == old(self).table(),
            final(self).mdns_active() == old(self).mdns_active(),
            final(self).protocol() == old(self).protocol(),
            final(self).events() == old(self).events(),
            final(self).actions() == old(self).actions(),
            final(self).warnings() == old(self).warnings(),
            dht_ready ==> r is Dht && final(self).disc() == old(self).disc(),
            !dht_ready && now < old(self).disc().next_query_at() ==> r is NotReady
                && final(self).disc() == old(self).disc(),
            !dht_ready && now >= old(self).disc().next_query_at() ==> {
                &&& r matches DiscoveryPoll::RandomQuery(target) && target@ == random_peer@
                &&& final(self).disc().next_query_at() == crate::discovery::deadline_after(
                    now as nat,
                    old(self).disc().delay(),
                )
                &&& final(self).disc().delay() == crate::discovery::next_delay(old(self).disc().delay())
            },
    {
        self.discovery.poll(dht_ready, now, random_peer)
    }

    /// Hands out the requests for the sub-protocols made so far, oldest first,
    /// and forgets them.
    pub fn take_actions(&mut self) -> (r: Vec<Action<TMessage>>)
        ensures
            r@ == old(self).actions(),
            final(self).actions().len() == 0,
            final(self).disc() == old(self).disc(),
            final(self).mdns_active() == old(self).mdns_active(),
            final(self).protocol() == old(self).protocol(),
            final(self).events() == old(self).events(),
            final(self).warnings() == old(self).warnings(),
    {
        let mut taken: Vec<Action<TMessage>> = Vec::new();
        taken.append(&mut self.actions);
        taken
    }

    /// Hands out the warnings raised so far, oldest first, and forgets them.
    pub fn take_warnings(&mut self) -> (r: Vec<Warning>)
        ensures
            r@ == old(self).warnings(),
            final(self).warnings().len() == 0,
            final(self).disc() == old(self).disc(),
            final(self).mdns_active() == old(self).mdns_active(),
            final(self).protocol() == old(self).protocol(),
            final(self).events() == old(self).events(),
            final(self).actions() == old(self).actions(),
    {
        let mut taken: Vec<Warning> = Vec::new();
        taken.append(&mut self.warnings);
        taken
    }

    /// Number of events waiting in the queue.
    pub fn pending_events(&self) -> (r: usize)
        ensures
            r == self.events().len(),
    {
        self.events.len()
    }

    /// Whether local discovery runs.
    pub fn is_mdns_active(&self) -> (r: bool)
        ensures
            r == self.mdns_active(),
    {
        self.mdns
    }

    pub closed spec fn disc(&self) -> DiscoveryBehaviour {
        self.discovery
    }

    pub closed spec fn mdns_active(&self) -> bool {
        self.mdns
    }

    pub closed spec fn protocol(&self) -> Seq<char> {
        self.protocol_name@
    }

    pub closed spec fn events(&self) -> Seq<BehaviourOut<TMessage>> {
        self.events@
    }

    pub closed spec fn actions(&self) -> Seq<Action<TMessage>> {
        self.actions@
    }

    pub closed spec fn warnings(&self) -> Seq<Warning> {
        self.warnings@
    }

    /// The static table.
    pub open spec fn table(&self) -> TableView {
        self.disc().table()
    }

    pub open spec fn wf(&self) -> bool {
        self.disc().wf()
    }

    /// Everything but the event queue is as in `other`.
    pub open spec fn same_but_events(&self, other: &Self) -> bool {
        &&& self.disc() == other.disc()
        &&& self.mdns_active() == other.mdns_active()
        &&& self.protocol() == other.protocol()
        &&& self.actions() == other.actions()
        &&& self.warnings() == other.warnings()
    }

    /// Everything but the requests is as in `other`.
    pub open spec fn same_but_actions(&self, other: &Self) -> bool {
        &&& self.disc() == other.disc()
        &&& self.mdns_active() == other.mdns_active()
        &&& self.protocol() == other.protocol()
        &&& self.events() == other.events()
        &&& self.warnings() == other.warnings()
    }
}

} // verus!
