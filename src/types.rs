//! Plain-value identities, addresses and endpoints.
use vstd::prelude::*;

verus! {

/// Identifier of a remote node, held as its encoded bytes.
#[derive(Debug, Clone, PartialEq, Eq, Hash)]
pub struct PeerId {
    pub bytes: Vec<u8>,
}

/// A network location of a peer, held as its encoded bytes.
#[derive(Debug, Clone, PartialEq, Eq, Hash)]
pub struct Address {
    pub bytes: Vec<u8>,
}

impl View for PeerId {
    type V = Seq<u8>;

    open spec fn view(&self) -> Seq<u8> {
        self.bytes@
    }
}

impl View for Address {
    type V = Seq<u8>;

    open spec fn view(&self) -> Seq<u8> {
        self.bytes@
    }
}

/// Whether two byte sequences are equal.
fn bytes_equal(a: &Vec<u8>, b: &Vec<u8>) -> (r: bool)
    ensures
        r == (a@ == b@),
{
    if a.len() != b.len() {
        return false;
    }
    let mut i: usize = 0;
    while i < a.len()
        invariant
            a@.len() == b@.len(),
            0 <= i <= a@.len(),
            a@.subrange(0, i as int) == b@.subrange(0, i as int),
        decreases a@.len() - i,
    {
        if a[i] != b[i] {
            assert(a@[i as int] != b@[i as int]);
            return false;
        }
        assert(a@.subrange(0, i + 1) == a@.subrange(0, i as int).push(a@[i as int]));
        assert(b@.subrange(0, i + 1) == b@.subrange(0, i as int).push(b@[i as int]));
        i += 1;
    }
    assert(a@ == a@.subrange(0, a@.len() as int));
    assert(b@ == b@.subrange(0, b@.len() as int));
    true
}

/// Copies a byte sequence.
fn bytes_copy(a: &Vec<u8>) -> (r: Vec<u8>)
    ensures
        r@ == a@,
{
    let mut r: Vec<u8> = Vec::new();
    let mut i: usize = 0;
    while i < a.len()
        invariant
            0 <= i <= a@.len(),
            r@ == a@.subrange(0, i as int),
        decreases a@.len() - i,
    {
        r.push(a[i]);
        assert(a@.subrange(0, i + 1) == a@.subrange(0, i as int).push(a@[i as int]));
        i += 1;
    }
    assert(a@ == a@.subrange(0, a@.len() as int));
    r
}

impl PeerId {
    pub fn new(bytes: Vec<u8>) -> (r: PeerId)
        ensures
            r@ == bytes@,
    {
        PeerId { bytes }
    }

    /// Whether `self` and `other` name the same peer.
    pub fn same_as(&self, other: &PeerId) -> (r: bool)
        ensures
            r == (self@ == other@),
    {
        bytes_equal(&self.bytes, &other.bytes)
    }

    /// A copy of this identifier.
    pub fn duplicate(&self) -> (r: PeerId)
        ensures
            r@ == self@,
    {
        PeerId { bytes: bytes_copy(&self.bytes) }
    }
}

impl Address {
    pub fn new(bytes: Vec<u8>) -> (r: Address)
        ensures
            r@ == bytes@,
    {
        Address { bytes }
    }

    /// Whether `self` and `other` are the same address.
    pub fn same_as(&self, other: &Address) -> (r: bool)
        ensures
            r == (self@ == other@),
    {
        bytes_equal(&self.bytes, &other.bytes)
    }

    /// A copy of this address.
    pub fn duplicate(&self) -> (r: Address)
        ensures
            r@ == self@,
    {
        Address { bytes: bytes_copy(&self.bytes) }
    }
}

/// How a connection to a peer came about.
#[derive(Debug, Clone)]
pub enum ConnectedPoint {
    /// We dialed the peer at `address`.
    Dialer { address: Address },
    /// The peer dialed us: `local_addr` is where we listened, `send_back_addr`
    /// where the peer can be reached back.
    Listener { local_addr: Address, send_back_addr: Address },
}

} // verus!
