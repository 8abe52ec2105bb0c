use casper_node::chain_info::{ChainInfo, Message};
use casper_node::connection::{
    after_handshake, after_tls, check_handshake, received_handshake, io_opt_timeout_result, io_timeout_result,
    ConnectionError, IncomingConnection, IoError,
};
use casper_node::types::{Digest, IpAddress, NodeId, ProtocolVersion, SocketAddress};

fn digest(b: u8) -> Digest {
    Digest::from_bytes([b; 32])
}

fn addr(port: u16) -> SocketAddress {
    SocketAddress { ip: IpAddress::V4([127, 0, 0, 1]), port }
}

fn info(ours: Digest, supports: Vec<Digest>) -> ChainInfo {
    ChainInfo {
        network_name: "net".to_string(),
        maximum_net_message_size: 1024,
        protocol_version: ProtocolVersion::new(1, 0, 0),
        our_chainspec: ours,
        supported_ancestors: supports,
    }
}

fn handshake(name: &str, chainspec: Option<Digest>, supports: Vec<Digest>) -> Message<u32> {
    Message::Handshake {
        network_name: name.to_string(),
        public_address: addr(4000),
        protocol_version: ProtocolVersion::new(1, 2, 3),
        chainspec,
        supports,
    }
}

#[test]
fn chainspec_compatibility_scenario() {
    let h1 = digest(1);
    let h2 = digest(2);
    let ours = info(h1, vec![]);
    assert!(ours.is_compatible_with(&Some(h2), &vec![h1]));
    assert!(!ours.is_compatible_with(&Some(h2), &vec![]));
    assert!(ours.is_compatible_with(&None, &vec![]));
}

#[test]
fn chainspec_compatible_when_equal_or_we_support_theirs() {
    let ours = info(digest(1), vec![digest(3)]);
    assert!(ours.is_compatible_with(&Some(digest(1)), &vec![]));
    assert!(ours.is_compatible_with(&Some(digest(3)), &vec![]));
    assert!(!ours.is_compatible_with(&Some(digest(4)), &vec![digest(5)]));
}

#[test]
fn create_handshake_carries_chain_info() {
    let ours = info(digest(7), vec![digest(8), digest(9)]);
    match ours.create_handshake::<u32>(addr(1234)) {
        Message::Handshake { network_name, public_address, protocol_version, chainspec, supports } => {
            assert_eq!(network_name, "net");
            assert_eq!(public_address, addr(1234));
            assert_eq!(protocol_version, ProtocolVersion::new(1, 0, 0));
            assert_eq!(chainspec, Some(digest(7)));
            assert_eq!(supports, vec![digest(8), digest(9)]);
        }
        Message::Payload(_) => panic!("not a handshake"),
    }
}

#[test]
fn create_for_testing_values() {
    let ci = ChainInfo::create_for_testing();
    assert_eq!(ci.network_name, "rust-tests-network");
    assert_eq!(ci.maximum_net_message_size, 22 * 1024 * 1024);
    assert_eq!(ci.protocol_version, ProtocolVersion::new(1, 0, 0));
    assert_eq!(ci.our_chainspec.to_bytes(), [0u8; 32]);
    assert!(ci.supported_ancestors.is_empty());
}

#[test]
fn handshake_accepted_returns_public_address() {
    let ours = info(digest(1), vec![]);
    let r = check_handshake(&ours, handshake("net", Some(digest(1)), vec![]));
    assert_eq!(r.unwrap(), addr(4000));
}

#[test]
fn handshake_from_old_peer_without_chainspec_accepted() {
    let ours = info(digest(1), vec![]);
    assert!(check_handshake(&ours, handshake("net", None, vec![])).is_ok());
}

#[test]
fn handshake_wrong_network() {
    let ours = info(digest(1), vec![]);
    match check_handshake(&ours, handshake("other", Some(digest(1)), vec![])) {
        Err(ConnectionError::WrongNetwork(name)) => assert_eq!(name, "other"),
        other => panic!("unexpected {:?}", other),
    }
}

#[test]
fn handshake_incompatible_chainspec() {
    let ours = info(digest(1), vec![]);
    assert!(matches!(
        check_handshake(&ours, handshake("net", Some(digest(2)), vec![])),
        Err(ConnectionError::IncompatibleChainspec)
    ));
    assert!(check_handshake(&ours, handshake("net", Some(digest(2)), vec![digest(1)])).is_ok());
}

#[test]
fn payload_instead_of_handshake() {
    let ours = info(digest(1), vec![]);
    assert!(matches!(
        check_handshake(&ours, Message::Payload(5u32)),
        Err(ConnectionError::DidNotSendHandshake)
    ));
    assert!(!Message::<u32>::Payload(5).is_handshake());
    assert!(handshake("net", None, vec![]).is_handshake());
}

#[test]
fn loopback_detected() {
    let ours = NodeId::from_fingerprint([3; 64]);
    let r = after_tls::<&str, ()>(&ours, addr(1), Ok((NodeId::from_fingerprint([3; 64]), "tls")));
    assert!(matches!(r, Err(IncomingConnection::Loopback)));
}

#[test]
fn other_peer_goes_on_to_handshake() {
    let ours = NodeId::from_fingerprint([3; 64]);
    let peer = NodeId::from_fingerprint([4; 64]);
    match after_tls::<&str, ()>(&ours, addr(1), Ok((peer, "tls"))) {
        Ok((id, t)) => {
            assert_eq!(id, peer);
            assert_eq!(t, "tls");
        }
        Err(_) => panic!("connection ended early"),
    }
}

#[test]
fn tls_failure_fails_early() {
    let ours = NodeId::from_fingerprint([3; 64]);
    let r = after_tls::<&str, ()>(&ours, addr(9), Err(ConnectionError::NoClientCertificate));
    match r {
        Err(IncomingConnection::FailedEarly { peer_addr, error: ConnectionError::NoClientCertificate }) => {
            assert_eq!(peer_addr, addr(9))
        }
        _ => panic!("expected early failure"),
    }
}

#[test]
fn handshake_outcome_established_or_failed() {
    let peer = NodeId::from_fingerprint([4; 64]);
    match after_handshake(addr(1), peer, Ok(addr(2)), 77u8) {
        IncomingConnection::Established { peer_addr, public_addr, peer_id, stream } => {
            assert_eq!((peer_addr, public_addr, peer_id, stream), (addr(1), addr(2), peer, 77));
        }
        _ => panic!("expected established"),
    }
    let failed = after_handshake(
        addr(1),
        peer,
        Err(ConnectionError::HandshakeRecv(IoError::Timeout)),
        77u8,
    );
    assert!(matches!(
        failed,
        IncomingConnection::Failed { error: ConnectionError::HandshakeRecv(IoError::Timeout), .. }
    ));
}

#[test]
fn io_results() {
    assert!(matches!(io_timeout_result::<u8, String>(None), Err(IoError::Timeout)));
    assert!(matches!(io_timeout_result::<u8, String>(Some(Ok(4))), Ok(4)));
    assert!(matches!(
        io_timeout_result::<u8, String>(Some(Err("e".to_string()))),
        Err(IoError::Error(ref e)) if e == "e"
    ));
    assert!(matches!(io_opt_timeout_result::<u8, String>(None), Err(IoError::Timeout)));
    assert!(matches!(io_opt_timeout_result::<u8, String>(Some(None)), Err(IoError::UnexpectedEof)));
    assert!(matches!(io_opt_timeout_result::<u8, String>(Some(Some(Ok(1)))), Ok(1)));
}

#[test]
fn digests_and_ids_compare_by_bytes() {
    assert!(digest(1).same_as(&digest(1)));
    assert!(!digest(1).same_as(&digest(2)));
    let a = NodeId::from_fingerprint([1; 64]);
    let mut bytes = [1u8; 64];
    bytes[63] = 2;
    assert!(!a.same_as(&NodeId::from_fingerprint(bytes)));
    assert_eq!(Digest::zero().to_bytes(), [0u8; 32]);
}

#[test]
fn dialed_peer_must_answer_with_handshake() {
    let hs = received_handshake::<u32, String>(Some(Ok(handshake("net", None, vec![]))));
    assert!(matches!(hs, Some(Message::Handshake { .. })));
    assert!(received_handshake::<u32, String>(Some(Ok(Message::Payload(1)))).is_none());
    assert!(received_handshake::<u32, String>(Some(Err("reset".to_string()))).is_none());
    assert!(received_handshake::<u32, String>(None).is_none());
}
