//! The discovery subsystem: the static address table, address resolution,
//! and the self-pacing timer that starts randomized DHT queries.
use vstd::prelude::*;
use vstd::arithmetic::power2::pow2;

use crate::types::{Address, PeerId};

verus! {

/// Delay, in milliseconds, before the random query that follows the first one.
pub const INITIAL_DELAY_MS: u64 = 1000;

/// Ceiling, in milliseconds, of the delay between two random queries.
pub const MAX_DELAY_MS: u64 = 60000;

/// The static table as plain values: (peer bytes, address bytes) in order.
pub type TableView = Seq<(Seq<u8>, Seq<u8>)>;

/// The views of a sequence of addresses.
pub open spec fn addr_views(v: Seq<Address>) -> Seq<Seq<u8>> {
    v.map_values(|a: Address| a@)
}

/// The views of a sequence of (peer, address) entries.
pub open spec fn table_view(v: Seq<(PeerId, Address)>) -> TableView {
    v.map_values(|e: (PeerId, Address)| (e.0@, e.1@))
}

/// Whether the table holds the entry `(p, a)`.
pub open spec fn has_entry(t: TableView, p: Seq<u8>, a: Seq<u8>) -> bool {
    exists|i: int| 0 <= i < t.len() && #[trigger] t[i] == (p, a)
}

/// The table after asking to add `(p, a)`: appended unless already present.
pub open spec fn add_entry(t: TableView, p: Seq<u8>, a: Seq<u8>) -> TableView {
    if has_entry(t, p, a) {
        t
    } else {
        t.push((p, a))
    }
}

/// The table after a sequence of add requests, in order.
pub open spec fn add_entries(t: TableView, adds: TableView) -> TableView
    decreases adds.len(),
{
    if adds.len() == 0 {
        t
    } else {
        let last = adds.last();
        add_entry(add_entries(t, adds.drop_last()), last.0, last.1)
    }
}

/// No two entries of the table are identical in both peer and address.
pub open spec fn no_identical_entries(t: TableView) -> bool {
    forall|i: int, j: int| 0 <= i < j < t.len() ==> #[trigger] t[i] != #[trigger] t[j]
}

/// Some entry of the table is for `p`.
pub open spec fn names_peer(t: TableView, p: Seq<u8>) -> bool {
    exists|i: int| 0 <= i < t.len() && (#[trigger] t[i]).0 == p
}

/// The addresses that the table gives for `p`, in table order.
pub open spec fn static_matches(t: TableView, p: Seq<u8>) -> Seq<Seq<u8>>
    decreases t.len(),
{
    if t.len() == 0 {
        Seq::empty()
    } else {
        let last = t.last();
        let before = static_matches(t.drop_last(), p);
        if last.0 == p {
            before.push(last.1)
        } else {
            before
        }
    }
}

/// The table gives no address for `p` exactly when no entry names `p`.
proof fn lemma_static_matches_empty(t: TableView, p: Seq<u8>)
    ensures
        static_matches(t, p).len() == 0 <==> !names_peer(t, p),
    decreases t.len(),
{
    if t.len() > 0 {
        lemma_static_matches_empty(t.drop_last(), p);
        if static_matches(t.drop_last(), p).len() != 0 {
            let i = choose|i: int| 0 <= i < t.drop_last().len() && (#[trigger] t.drop_last()[i]).0 == p;
            assert(t[i].0 == p);
        }
        assert forall|i: int| 0 <= i < t.len() - 1 implies #[trigger] t[i] == t.drop_last()[i] by {}
    }
}

/// The delay that follows `d` once the timer has fired: doubled, up to the ceiling.
pub open spec fn next_delay(d: nat) -> nat {
    if 2 * d < MAX_DELAY_MS {
        2 * d
    } else {
        MAX_DELAY_MS as nat
    }
}

/// The delay after `n` fires of the timer, starting from the initial delay.
pub open spec fn delay_after(n: nat) -> nat
    decreases n,
{
    if n == 0 {
        INITIAL_DELAY_MS as nat
    } else {
        next_delay(delay_after((n - 1) as nat))
    }
}

/// The deadline `delay` after `now`, saturated at the largest instant.
pub open spec fn deadline_after(now: nat, delay: nat) -> nat {
    if now + delay > u64::MAX {
        u64::MAX as nat
    } else {
        now + delay
    }
}

/// What one poll of the discovery subsystem calls for.
pub enum DiscoveryPoll {
    /// The DHT had output ready: hand it on, the timer was left alone.
    Dht,
    /// The timer fired: ask the DHT for the nodes closest to this random peer.
    RandomQuery(PeerId),
    /// Nothing to do until the next poll.
    NotReady,
}

/// Discovery of the nodes of the network: statically configured addresses,
/// and the schedule of random DHT queries that keeps the routing table full.
pub struct DiscoveryBehaviour {
    /// Hard-coded (peer, address) entries, typically bootstrap and reserved
    /// nodes. They never expire.
    user_defined: Vec<(PeerId, Address)>,
    /// Instant, in milliseconds, at which the next random query starts.
    next_kad_random_query: u64,
    /// Delay, in milliseconds, that is armed when the timer next fires.
    duration_to_next_kad: u64,
}

impl DiscoveryBehaviour {
    /// The static table.
    pub closed spec fn table(&self) -> TableView {
        table_view(self.user_defined@)
    }

    /// Instant of the next random query.
    pub closed spec fn next_query_at(&self) -> nat {
        self.next_kad_random_query as nat
    }

    /// Delay armed when the timer next fires.
    pub closed spec fn delay(&self) -> nat {
        self.duration_to_next_kad as nat
    }

    /// The delay stays between the initial delay and the ceiling.
    pub open spec fn wf(&self) -> bool {
        INITIAL_DELAY_MS <= self.delay() <= MAX_DELAY_MS
    }

    /// A subsystem whose static table is `known_addresses`, whose first random
    /// query is due at `now`.
    pub fn new(known_addresses: Vec<(PeerId, Address)>, now: u64) -> (r: DiscoveryBehaviour)
        ensures
            r.wf(),
            r.table() == table_view(known_addresses@),
            r.next_query_at() == now,
            r.delay() == delay_after(0),
    {
        DiscoveryBehaviour {
            user_defined: known_addresses,
            next_kad_random_query: now,
            duration_to_next_kad: INITIAL_DELAY_MS,
        }
    }

    /// Whether the static table holds the entry `(peer, addr)`.
    fn has_static_entry(&self, peer: &PeerId, addr: &Address) -> (r: bool)
        ensures
            r == has_entry(self.table(), peer@, addr@),
    {
        let mut i: usize = 0;
        while i < self.user_defined.len()
            invariant
                0 <= i <= self.user_defined@.len(),
                self.table().len() == self.user_defined@.len(),
                forall|k: int| 0 <= k < i ==> #[trigger] self.table()[k] != (peer@, addr@),
            decreases self.user_defined@.len() - i,
        {
            let entry = &self.user_defined[i];
            if entry.0.same_as(peer) && entry.1.same_as(addr) {
                assert(self.table()[i as int] == (peer@, addr@));
                return true;
            }
            i += 1;
        }
        false
    }

    /// Adds a hard-coded address for `peer`, that never expires, unless the
    /// table already holds exactly this entry.
    pub fn add_known_address(&mut self, peer: PeerId, addr: Address)
        ensures
            final(self).table() == add_entry(old(self).table(), peer@, addr@),
            final(self).next_query_at() == old(self).next_query_at(),
            final(self).delay() == old(self).delay(),
            no_identical_entries(old(self).table()) ==> no_identical_entries(final(self).table()),
    {
        if !self.has_static_entry(&peer, &addr) {
            self.user_defined.push((peer, addr));
            assert(self.table() == old(self).table().push((peer@, addr@)));
        }
    }

    /// Every address known for `peer`: the static entries for it, in table
    /// order, followed by `dht_addresses`, what the DHT associates with it.
    pub fn addresses_of_peer(&self, peer: &PeerId, dht_addresses: Vec<Address>) -> (r: Vec<Address>)
        ensures
            addr_views(r@) == static_matches(self.table(), peer@) + addr_views(dht_addresses@),
            r@.len() == 0 <==> (!names_peer(self.table(), peer@) && dht_addresses@.len() == 0),
    {
        let mut list: Vec<Address> = Vec::new();
        let mut i: usize = 0;
        while i < self.user_defined.len()
            invariant
                0 <= i <= self.user_defined@.len(),
                self.table().len() == self.user_defined@.len(),
                addr_views(list@) == static_matches(self.table().subrange(0, i as int), peer@),
            decreases self.user_defined@.len() - i,
        {
            let ghost t = self.table().subrange(0, i + 1);
            assert(t.drop_last() == self.table().subrange(0, i as int));
            let ghost before = list@;
            let entry = &self.user_defined[i];
            if entry.0.same_as(peer) {
                list.push(entry.1.duplicate());
                assert(addr_views(list@) =~= addr_views(before).push(entry.1@));
            }
            i += 1;
        }
        assert(self.table().subrange(0, self.table().len() as int) == self.table());
        let ghost statics = list@;
        let mut dht = dht_addresses;
        list.append(&mut dht);
        assert(addr_views(list@) =~= addr_views(statics) + addr_views(dht_addresses@));
        proof {
            lemma_static_matches_empty(self.table(), peer@);
        }
        list
    }

    /// One poll of the subsystem. `dht_ready` says whether the DHT has output
    /// ready; `now` is the current instant in milliseconds; `random_peer` is a
    /// freshly drawn identifier, used only if the timer fires.
    ///
    /// Ready DHT output takes priority and leaves the timer alone. Otherwise,
    /// once the deadline is reached, a random query is started, the timer is
    /// rearmed for the current delay from now, and the delay doubles up to
    /// the ceiling.
    pub fn poll(&mut self, dht_ready: bool, now: u64, random_peer: PeerId) -> (r: DiscoveryPoll)
        ensures
            old(self).wf() ==> final(self).wf(),
            final(self).table() == old(self).table(),
            dht_ready ==> r is Dht && *final(self) == *old(self),
            !dht_ready && now < old(self).next_query_at() ==> r is NotReady && *final(self)
                == *old(self),
            !dht_ready && now >= old(self).next_query_at() ==> {
                &&& r matches DiscoveryPoll::RandomQuery(target) && target@ == random_peer@
                &&& final(self).next_query_at() == deadline_after(now as nat, old(self).delay())
                &&& final(self).delay() == next_delay(old(self).delay())
            },
    {
        if dht_ready {
            return DiscoveryPoll::Dht;
        }
        if now < self.next_kad_random_query {
            return DiscoveryPoll::NotReady;
        }
        let d = self.duration_to_next_kad;
        self.next_kad_random_query = if now > u64::MAX - d {
            u64::MAX
        } else {
            now + d
        };
        self.duration_to_next_kad = if d < MAX_DELAY_MS / 2 {
            2 * d
        } else {
            MAX_DELAY_MS
        };
        DiscoveryPoll::RandomQuery(random_peer)
    }

    /// Instant, in milliseconds, of the next random query.
    pub fn next_query_instant(&self) -> (r: u64)
        ensures
            r == self.next_query_at(),
    {
        self.next_kad_random_query
    }

    /// Delay, in milliseconds, armed when the timer next fires.
    pub fn current_delay(&self) -> (r: u64)
        ensures
            r == self.delay(),
    {
        self.duration_to_next_kad
    }

    /// Number of entries in the static table.
    pub fn static_len(&self) -> (r: usize)
        ensures
            r == self.table().len(),
    {
        self.user_defined.len()
    }
}

/// Adding entries one request at a time never makes two entries identical:
/// a table without identical entries keeps that property after any sequence
/// of add requests.
pub proof fn law_static_table_stays_free_of_duplicates(t: TableView, adds: TableView)
    requires
        no_identical_entries(t),
    ensures
        no_identical_entries(add_entries(t, adds)),
    decreases adds.len(),
{
    if adds.len() > 0 {
        let last = adds.last();
        law_static_table_stays_free_of_duplicates(t, adds.drop_last());
        lemma_add_entry_keeps_distinct(add_entries(t, adds.drop_last()), last.0, last.1);
    }
}

/// One add request keeps the entries pairwise distinct.
pub proof fn lemma_add_entry_keeps_distinct(t: TableView, p: Seq<u8>, a: Seq<u8>)
    requires
        no_identical_entries(t),
    ensures
        no_identical_entries(add_entry(t, p, a)),
{
    if !has_entry(t, p, a) {
        let t2 = t.push((p, a));
        assert forall|i: int, j: int| 0 <= i < j < t2.len() implies #[trigger] t2[i] != #[trigger] t2[j] by {
            if j == t.len() {
                assert(t[i] != (p, a));
            } else {
                assert(t[i] != t[j]);
            }
        }
    }
}

/// After `fires` fires of the timer, with no reset in between, the delay is
/// `min(2^fires, 60)` seconds.
pub proof fn law_backoff_after_fires(fires: nat)
    ensures
        delay_after(fires) == INITIAL_DELAY_MS * (if pow2(fires) < 60 { pow2(fires) } else { 60 }),
    decreases fires,
{
    if fires > 0 {
        law_backoff_after_fires((fires - 1) as nat);
        vstd::arithmetic::power2::lemma_pow2_unfold(fires);
    } else {
        vstd::arithmetic::power2::lemma2_to64();
    }
}

/// The delay never decreases, and stays within its bounds, across fires.
pub proof fn law_backoff_monotone(fires: nat)
    ensures
        delay_after(fires) <= delay_after(fires + 1),
        INITIAL_DELAY_MS <= delay_after(fires) <= MAX_DELAY_MS,
    decreases fires,
{
    if fires > 0 {
        law_backoff_monotone((fires - 1) as nat);
    }
}

} // verus!
