//! Outcomes of peer connections: timeouts, the incoming-connection steps and the handshake check.
//!
//! The I/O (TLS, framing, timers) happens around these functions; they decide what each result
//! of that I/O means for the connection.

use crate::chain_info::{compatible, ChainInfo, Message};
use crate::types::{digest_set, NodeId, SocketAddress};
use vstd::prelude::*;

verus! {

/// Maximum time allowed to send or receive a handshake, in seconds.
pub const HANDSHAKE_TIMEOUT_SECS: u64 = 20;

/// An I/O operation that can time out.
#[derive(Debug)]
pub enum IoError<E> {
    /// The operation timed out.
    Timeout,
    /// The operation failed.
    Error(E),
    /// The connection closed unexpectedly.
    UnexpectedEof,
}

/// Why a connection failed.
#[derive(Debug)]
pub enum ConnectionError {
    /// Failed to create the TLS acceptor.
    AcceptorCreation(String),
    /// The TLS handshake failed.
    TlsHandshake(String),
    /// The client presented no certificate.
    NoClientCertificate,
    /// The peer's certificate did not validate.
    PeerCertificateInvalid(String),
    /// Sending our handshake failed.
    HandshakeSend(IoError<String>),
    /// Receiving the peer's handshake failed.
    HandshakeRecv(IoError<String>),
    /// The peer is on a network of another name.
    WrongNetwork(String),
    /// The peer's chainspec is not compatible with ours.
    IncompatibleChainspec,
    /// The peer's first message was not a handshake.
    DidNotSendHandshake,
}

/// Outcome of an incoming connection negotiation; `S` is the stream of incoming messages.
#[derive(Debug)]
pub enum IncomingConnection<S> {
    /// The connection failed before the peer's identity was known.
    FailedEarly { peer_addr: SocketAddress, error: ConnectionError },
    /// The connection failed after TLS was established.
    Failed { peer_addr: SocketAddress, peer_id: NodeId, error: ConnectionError },
    /// The connection turned out to be a loopback connection.
    Loopback,
    /// The connection was established.
    Established {
        peer_addr: SocketAddress,
        public_addr: SocketAddress,
        peer_id: NodeId,
        stream: S,
    },
}

/// The result of an operation run under a timeout, where `None` means the time ran out.
pub fn io_timeout_result<T, E>(r: Option<Result<T, E>>) -> (out: Result<T, IoError<E>>)
    ensures
        match r {
            None => out matches Err(IoError::Timeout),
            Some(Ok(v)) => out == Ok::<T, IoError<E>>(v),
            Some(Err(e)) => out == Err::<T, IoError<E>>(IoError::Error(e)),
        },
{
    match r {
        None => Err(IoError::Timeout),
        Some(Ok(v)) => Ok(v),
        Some(Err(e)) => Err(IoError::Error(e)),
    }
}

/// The result of reading one item of a stream under a timeout, where the outer `None` means the
/// time ran out and the inner `None` that the stream ended.
pub fn io_opt_timeout_result<T, E>(r: Option<Option<Result<T, E>>>) -> (out: Result<
    T,
    IoError<E>,
>)
    ensures
        match r {
            None => out matches Err(IoError::Timeout),
            Some(None) => out matches Err(IoError::UnexpectedEof),
            Some(Some(Ok(v))) => out == Ok::<T, IoError<E>>(v),
            Some(Some(Err(e))) => out == Err::<T, IoError<E>>(IoError::Error(e)),
        },
{
    match r {
        None => Err(IoError::Timeout),
        Some(None) => Err(IoError::UnexpectedEof),
        Some(Some(Ok(v))) => Ok(v),
        Some(Some(Err(e))) => Err(IoError::Error(e)),
    }
}

/// What a peer's first message means for the connection, given our chain information: the
/// peer's public address if the handshake is accepted, else the error.
pub open spec fn handshake_outcome<P>(info: ChainInfo, remote: Message<P>) -> Result<
    SocketAddress,
    ConnectionError,
> {
    match remote {
        Message::Handshake { network_name, public_address, chainspec, supports, .. } => {
            if network_name@ != info.network_name@ {
                Err(ConnectionError::WrongNetwork(network_name))
            } else if !compatible(
                info.our_chainspec@,
                info.supports_set(),
                match chainspec {
                    Some(d) => Some(d@),
                    None => None,
                },
                digest_set(supports@),
            ) {
                Err(ConnectionError::IncompatibleChainspec)
            } else {
                Ok(public_address)
            }
        },
        Message::Payload(_) => Err(ConnectionError::DidNotSendHandshake),
    }
}

/// Checks the first message received from a peer: it must be a handshake for our network with a
/// compatible chainspec.
pub fn check_handshake<P>(info: &ChainInfo, remote: Message<P>) -> (r: Result<
    SocketAddress,
    ConnectionError,
>)
    ensures
        r == handshake_outcome(*info, remote),
{
    match remote {
        Message::Handshake { network_name, public_address, chainspec, supports, .. } => {
            if network_name != info.network_name {
                Err(ConnectionError::WrongNetwork(network_name))
            } else if !info.is_compatible_with(&chainspec, &supports) {
                Err(ConnectionError::IncompatibleChainspec)
            } else {
                Ok(public_address)
            }
        },
        Message::Payload(_) => Err(ConnectionError::DidNotSendHandshake),
    }
}

/// A handshake for our network is accepted exactly when its chainspec data is compatible with
/// ours.
pub proof fn lemma_handshake_accepted_iff_compatible<P>(info: ChainInfo, remote: Message<P>)
    requires
        remote matches Message::Handshake { network_name, .. } && network_name@
            == info.network_name@,
    ensures
        handshake_outcome(info, remote) is Ok <==> (remote matches Message::Handshake {
            chainspec,
            supports,
            ..
        } && compatible(
            info.our_chainspec@,
            info.supports_set(),
            match chainspec {
                Some(d) => Some(d@),
                None => None,
            },
            digest_set(supports@),
        )),
{
}

/// The handshake a dialed peer answered with: its first message if that is a handshake, else
/// nothing (the stream ended, failed, or began with another message).
pub fn received_handshake<P, E>(first: Option<Result<Message<P>, E>>) -> (r: Option<Message<P>>)
    ensures
        match first {
            Some(Ok(m)) => if m is Handshake {
                r == Some(m)
            } else {
                r is None
            },
            _ => r is None,
        },
{
    match first {
        Some(Ok(m)) => {
            if m.is_handshake() {
                Some(m)
            } else {
                None
            }
        },
        _ => None,
    }
}

/// The step of an incoming connection after TLS: `Ok` with the peer's identity and transport
/// when the handshake is to follow, else the final outcome. A failed TLS setup fails early; a
/// peer with our own identity is a loopback connection.
pub fn after_tls<T, S>(our_id: &NodeId, peer_addr: SocketAddress, tls: Result<
    (NodeId, T),
    ConnectionError,
>) -> (r: Result<(NodeId, T), IncomingConnection<S>>)
    ensures
        match tls {
            Err(e) => r == Err::<(NodeId, T), IncomingConnection<S>>(
                IncomingConnection::FailedEarly { peer_addr, error: e },
            ),
            Ok((id, t)) => if id@ == our_id@ {
                r matches Err(IncomingConnection::Loopback)
            } else {
                r == Ok::<(NodeId, T), IncomingConnection<S>>((id, t))
            },
        },
{
    match tls {
        Err(error) => Err(IncomingConnection::FailedEarly { peer_addr, error }),
        Ok((peer_id, transport)) => {
            if peer_id.same_as(our_id) {
                Err(IncomingConnection::Loopback)
            } else {
                Ok((peer_id, transport))
            }
        },
    }
}

/// The outcome of an incoming connection once the handshake has been negotiated.
pub fn after_handshake<S>(
    peer_addr: SocketAddress,
    peer_id: NodeId,
    handshake: Result<SocketAddress, ConnectionError>,
    stream: S,
) -> (r: IncomingConnection<S>)
    ensures
        match handshake {
            Ok(public_addr) => r == IncomingConnection::Established {
                peer_addr,
                public_addr,
                peer_id,
                stream,
            },
            Err(error) => r == IncomingConnection::<S>::Failed { peer_addr, peer_id, error },
        },
{
    match handshake {
        Ok(public_addr) => IncomingConnection::Established { peer_addr, public_addr, peer_id, stream },
        Err(error) => IncomingConnection::Failed { peer_addr, peer_id, error },
    }
}

} // verus!
