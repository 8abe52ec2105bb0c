//! Plain values shared by the networking and reactor modules.

use vstd::prelude::*;

verus! {

/// Whether two byte strings are equal.
pub fn bytes_equal(a: &[u8], b: &[u8]) -> (r: bool)
    ensures
        r == (a@ == b@),
{
    if a.len() != b.len() {
        return false;
    }
    let mut i: usize = 0;
    while i < a.len()
        invariant
            a@.len() == b@.len(),
            i <= a@.len(),
            forall|j: int| 0 <= j < i ==> a@[j] == b@[j],
        decreases a@.len() - i,
    {
        if a[i] != b[i] {
            return false;
        }
        i = i + 1;
    }
    assert(a@ =~= b@);
    true
}

/// A 32-byte content hash, such as the digest of a chainspec.
#[derive(Clone, Copy, Debug, PartialEq, Eq, Hash)]
pub struct Digest {
    bytes: [u8; 32],
}

impl View for Digest {
    type V = Seq<u8>;

    closed spec fn view(&self) -> Seq<u8> {
        self.bytes@
    }
}

impl Digest {
    /// The digest made of `bytes`.
    pub fn from_bytes(bytes: [u8; 32]) -> (r: Digest)
        ensures
            r@ == bytes@,
    {
        Digest { bytes }
    }

    /// The digest's bytes.
    pub fn to_bytes(&self) -> (r: [u8; 32])
        ensures
            r@ == self@,
    {
        self.bytes
    }

    /// The digest of all zero bytes.
    pub fn zero() -> (r: Digest)
        ensures
            r@ == Seq::new(32, |i: int| 0u8),
    {
        let r = Digest { bytes: [0u8; 32] };
        assert(r@ =~= Seq::new(32, |i: int| 0u8));
        r
    }

    /// Whether two digests hold the same bytes.
    pub fn same_as(&self, other: &Digest) -> (r: bool)
        ensures
            r == (self@ == other@),
    {
        bytes_equal(&self.bytes, &other.bytes)
    }
}

/// The set of digests held in `ds`.
pub open spec fn digest_set(ds: Seq<Digest>) -> Set<Seq<u8>> {
    Set::new(|b: Seq<u8>| exists|i: int| 0 <= i < ds.len() && ds[i]@ == b)
}

/// Whether `ds` holds a digest with the bytes of `d`.
pub fn contains_digest(ds: &Vec<Digest>, d: &Digest) -> (r: bool)
    ensures
        r == digest_set(ds@).contains(d@),
{
    let mut i: usize = 0;
    while i < ds.len()
        invariant
            i <= ds@.len(),
            forall|j: int| 0 <= j < i ==> ds@[j]@ != d@,
        decreases ds@.len() - i,
    {
        if ds[i].same_as(d) {
            assert(digest_set(ds@).contains(d@));
            return true;
        }
        i = i + 1;
    }
    false
}

/// The identity of a node: the fingerprint of its TLS certificate's public key.
#[derive(Clone, Copy, Debug, PartialEq, Eq, Hash)]
pub struct NodeId {
    fingerprint: [u8; 64],
}

impl View for NodeId {
    type V = Seq<u8>;

    closed spec fn view(&self) -> Seq<u8> {
        self.fingerprint@
    }
}

impl NodeId {
    /// The node identity with the given fingerprint.
    pub fn from_fingerprint(fingerprint: [u8; 64]) -> (r: NodeId)
        ensures
            r@ == fingerprint@,
    {
        NodeId { fingerprint }
    }

    /// The fingerprint.
    pub fn fingerprint(&self) -> (r: [u8; 64])
        ensures
            r@ == self@,
    {
        self.fingerprint
    }

    /// Whether two identities are the same.
    pub fn same_as(&self, other: &NodeId) -> (r: bool)
        ensures
            r == (self@ == other@),
    {
        bytes_equal(&self.fingerprint, &other.fingerprint)
    }
}

/// An IP address.
#[derive(Clone, Copy, Debug, PartialEq, Eq, Hash)]
pub enum IpAddress {
    V4([u8; 4]),
    V6([u8; 16]),
}

/// A socket address: an IP address and a port.
#[derive(Clone, Copy, Debug, PartialEq, Eq, Hash)]
pub struct SocketAddress {
    pub ip: IpAddress,
    pub port: u16,
}

/// A semantic protocol version.
#[derive(Clone, Copy, Debug, PartialEq, Eq, Hash)]
pub struct ProtocolVersion {
    pub major: u32,
    pub minor: u32,
    pub patch: u32,
}

impl ProtocolVersion {
    pub fn new(major: u32, minor: u32, patch: u32) -> (r: ProtocolVersion)
        ensures
            r.major == major,
            r.minor == minor,
            r.patch == patch,
    {
        ProtocolVersion { major, minor, patch }
    }
}

} // verus!
