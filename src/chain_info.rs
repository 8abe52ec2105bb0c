//! Chain identification data exchanged in the peer-to-peer handshake.

use crate::framing::MAXIMUM_NET_MESSAGE_SIZE;
use crate::types::{contains_digest, digest_set, Digest, ProtocolVersion, SocketAddress};
use vstd::prelude::*;

verus! {

/// A message on a peer connection: the handshake that opens each direction, or a payload.
#[derive(Debug)]
pub enum Message<P> {
    Handshake {
        /// Name of the network the sender participates in.
        network_name: String,
        /// The address the sender can be reached at.
        public_address: SocketAddress,
        /// The sender's protocol version.
        protocol_version: ProtocolVersion,
        /// Digest of the sender's chainspec; absent from versions before chainspecs were
        /// exchanged.
        chainspec: Option<Digest>,
        /// Digests of the ancestor chainspecs the sender supports.
        supports: Vec<Digest>,
    },
    Payload(P),
}

impl<P> Message<P> {
    /// Whether the message is a handshake.
    pub fn is_handshake(&self) -> (r: bool)
        ensures
            r == self is Handshake,
    {
        match self {
            Message::Handshake { .. } => true,
            Message::Payload(_) => false,
        }
    }
}

/// Whether a peer's chainspec data is compatible with ours: the digests match, or either side
/// supports the other's, or the peer sent no digest at all (it predates the exchange).
pub open spec fn compatible(
    ours: Seq<u8>,
    our_supports: Set<Seq<u8>>,
    theirs: Option<Seq<u8>>,
    their_supports: Set<Seq<u8>>,
) -> bool {
    match theirs {
        Some(t) => t == ours || our_supports.contains(t) || their_supports.contains(ours),
        None => true,
    }
}

/// Data retained from the chainspec by the networking component, used for handshakes.
#[derive(Debug)]
pub struct ChainInfo {
    /// Name of the network we participate in. We only remain connected to peers with the same
    /// network name as us.
    pub network_name: String,
    /// The maximum message size for a network message, as supplied from the chainspec.
    pub maximum_net_message_size: u32,
    /// The protocol version.
    pub protocol_version: ProtocolVersion,
    /// Hash of the chainspec we are running with.
    pub our_chainspec: Digest,
    /// The ancestors we support.
    pub supported_ancestors: Vec<Digest>,
}

/// A copy of a list of digests.
fn copy_digests(ds: &Vec<Digest>) -> (r: Vec<Digest>)
    ensures
        r@ == ds@,
{
    let mut r: Vec<Digest> = Vec::new();
    let mut i: usize = 0;
    while i < ds.len()
        invariant
            i <= ds@.len(),
            r@ == ds@.subrange(0, i as int),
        decreases ds@.len() - i,
    {
        r.push(ds[i]);
        i = i + 1;
        assert(r@ =~= ds@.subrange(0, i as int));
    }
    assert(ds@.subrange(0, ds@.len() as int) =~= ds@);
    r
}

impl ChainInfo {
    /// The set of ancestor digests we support.
    pub open spec fn supports_set(&self) -> Set<Seq<u8>> {
        digest_set(self.supported_ancestors@)
    }

    /// Chain information for tests: network "rust-tests-network", 22 MiB messages, protocol
    /// version 1.0.0, the all-zero chainspec digest and no supported ancestors.
    pub fn create_for_testing() -> (r: ChainInfo)
        ensures
            r.network_name@ == "rust-tests-network"@,
            r.maximum_net_message_size == MAXIMUM_NET_MESSAGE_SIZE,
            r.protocol_version == (ProtocolVersion { major: 1, minor: 0, patch: 0 }),
            r.our_chainspec@ == Seq::new(32, |i: int| 0u8),
            r.supported_ancestors@.len() == 0,
    {
        ChainInfo {
            network_name: "rust-tests-network".to_owned(),
            maximum_net_message_size: MAXIMUM_NET_MESSAGE_SIZE,
            protocol_version: ProtocolVersion::new(1, 0, 0),
            our_chainspec: Digest::zero(),
            supported_ancestors: Vec::new(),
        }
    }

    /// The handshake that announces this chain, with `public_address` as our address.
    pub fn create_handshake<P>(&self, public_address: SocketAddress) -> (r: Message<P>)
        ensures
            r matches Message::Handshake {
                network_name,
                public_address: a,
                protocol_version,
                chainspec,
                supports,
            } && network_name@ == self.network_name@ && a == public_address && protocol_version
                == self.protocol_version && chainspec == Some(self.our_chainspec) && supports@
                == self.supported_ancestors@,
    {
        Message::Handshake {
            network_name: self.network_name.clone(),
            public_address,
            protocol_version: self.protocol_version,
            chainspec: Some(self.our_chainspec),
            supports: copy_digests(&self.supported_ancestors),
        }
    }

    /// Whether a peer's chainspec digest and supported ancestors are compatible with ours.
    pub fn is_compatible_with(&self, their_chainspec: &Option<Digest>, their_supports: &Vec<
        Digest,
    >) -> (r: bool)
        ensures
            r == compatible(
                self.our_chainspec@,
                self.supports_set(),
                match their_chainspec {
                    Some(d) => Some(d@),
                    None => None,
                },
                digest_set(their_supports@),
            ),
    {
        match their_chainspec {
            Some(theirs) => {
                // Matching chainspecs are compatible in any case.
                if theirs.same_as(&self.our_chainspec) {
                    return true;
                }
                // Otherwise one side must support the other.
                contains_digest(&self.supported_ancestors, theirs) || contains_digest(
                    their_supports,
                    &self.our_chainspec,
                )
            },
            None => true,
        }
    }
}

} // verus!
