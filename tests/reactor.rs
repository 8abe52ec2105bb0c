use casper_node::consensus_config::{Config, External};
use casper_node::execute_request::ExecuteRequest;
use casper_node::initializer::{
    ChainspecLoader, Initializer, InitializerEvent, InitializerRouted, InitializerTypes,
};
use casper_node::three_stage::{
    next_transition, Dispatch, Stage, ThreeStageEvent, ThreeStageReactor, Transition,
    TransitionError,
};
use casper_node::types::{Digest, NodeId, ProtocolVersion};
use casper_node::validator::{ComponentId, Event, Message, Reactor, Routed, ValidatorTypes};

struct Types;

impl ValidatorTypes for Types {
    type NetworkEvent = String;
    type PingerEvent = String;
    type StorageRequest = u8;
    type ApiEvent = u8;
    type ConsensusEvent = String;
    type GossiperEvent = String;
    type MetricsRequest = u8;
    type ContractRuntimeEvent = u8;
    type NetworkRequest = u32;
    type PingerMessage = u8;
    type ConsensusMessage = u16;
    type GossiperMessage = u32;

    fn spec_network_request(request: u32) -> String {
        Self::network_request(request)
    }

    fn spec_pinger_message(sender: NodeId, msg: u8) -> String {
        Self::pinger_message(sender, msg)
    }

    fn spec_consensus_message(sender: NodeId, msg: u16) -> String {
        Self::consensus_message(sender, msg)
    }

    fn spec_gossiper_message(sender: NodeId, msg: u32) -> String {
        Self::gossiper_message(sender, msg)
    }

    fn network_request(request: u32) -> String {
        format!("request {}", request)
    }

    fn pinger_message(_sender: NodeId, msg: u8) -> String {
        format!("ping {}", msg)
    }

    fn consensus_message(sender: NodeId, msg: u16) -> String {
        format!("consensus {} from {}", msg, sender.fingerprint()[0])
    }

    fn gossiper_message(_sender: NodeId, msg: u32) -> String {
        format!("gossip {}", msg)
    }
}

struct InitTypes;

impl InitializerTypes for InitTypes {
    type ChainspecEvent = u8;
    type StorageEvent = String;
    type ContractRuntimeEvent = String;
    type StorageRequest = u8;
    type ContractRuntimeRequest = u8;
    type NetworkRequest = u8;

    fn spec_storage_request(request: u8) -> String {
        Self::storage_request(request)
    }

    fn spec_contract_runtime_request(request: u8) -> String {
        Self::contract_runtime_request(request)
    }

    fn storage_request(request: u8) -> String {
        format!("storage {}", request)
    }

    fn contract_runtime_request(request: u8) -> String {
        format!("runtime {}", request)
    }
}

fn initializer() -> Initializer<&'static str, &'static str, &'static str> {
    Initializer::new("config", "storage", "runtime")
}

fn reactor() -> Reactor<(), (), (), &'static str, &'static str, (), (), ()> {
    let (r, _) = Reactor::new::<&str, u8>(
        initializer(),
        (),
        (),
        vec![],
        (),
        vec![],
        (),
        (),
        vec![],
        (),
    );
    r
}

#[test]
fn initializer_stopped_successfully() {
    let mut init = initializer();
    assert!(!init.is_stopped());
    assert!(!init.stopped_successfully());
    init.chainspec.finish(false);
    assert!(init.is_stopped());
    assert!(!init.stopped_successfully());
    init.chainspec.finish(true);
    assert!(init.stopped_successfully());
    let mut loader = ChainspecLoader::new();
    loader.finish(true);
    assert!(loader.is_stopped() && loader.stopped_successfully());
}

#[test]
fn initializer_discards_network_requests() {
    let init = initializer();
    assert!(init.dispatch_event::<InitTypes>(InitializerEvent::NetworkRequest(1)).is_none());
    match init.dispatch_event::<InitTypes>(InitializerEvent::StorageRequest(4)) {
        Some(InitializerRouted::Storage(e)) => assert_eq!(e, "storage 4"),
        _ => panic!("storage request not routed to storage"),
    }
    match init.dispatch_event::<InitTypes>(InitializerEvent::ContractRuntimeRequest(5)) {
        Some(InitializerRouted::ContractRuntime(e)) => assert_eq!(e, "runtime 5"),
        _ => panic!("runtime request not routed to the contract runtime"),
    }
    assert!(matches!(
        init.dispatch_event::<InitTypes>(InitializerEvent::Chainspec(2)),
        Some(InitializerRouted::Chainspec(2))
    ));
}

#[test]
fn initializer_hands_over_state() {
    assert_eq!(initializer().into_parts(), ("config", "storage", "runtime"));
}

#[test]
fn lifecycle_transition_scenario() {
    // The initializer reports success: the lifecycle moves on to joining.
    assert_eq!(next_transition(Stage::Initializing, true, true, true), Ok(Transition::ToJoining));
    let tsr: ThreeStageReactor<(), u8, u16> = ThreeStageReactor::Joiner(1);
    assert_eq!(tsr.stage(), Stage::Joining);
    // An initializer event arriving after the transition is dropped.
    let stale: ThreeStageEvent<&str, &str, &str> = ThreeStageEvent::InitializerEvent("late");
    assert!(matches!(tsr.dispatch_event(stale), Dispatch::Discard(ThreeStageEvent::InitializerEvent("late"))));
    // The joiner stops: the lifecycle moves on to validating.
    assert_eq!(next_transition(Stage::Joining, true, false, true), Ok(Transition::ToValidating));
    // Events still queued for the joiner do not hold the transition back.
    assert_eq!(next_transition(Stage::Joining, true, true, false), Ok(Transition::ToValidating));
    assert_eq!(next_transition(Stage::Joining, false, true, false), Ok(Transition::Stay));
    let tsr: ThreeStageReactor<(), u8, u16> = ThreeStageReactor::Validator(2);
    assert_eq!(tsr.stage(), Stage::Validating);
    assert!(matches!(tsr.dispatch_event::<u8, u8, u8>(ThreeStageEvent::InitializerEvent(1)), Dispatch::Discard(_)));
    assert!(matches!(tsr.dispatch_event::<u8, u8, u8>(ThreeStageEvent::JoinerEvent(1)), Dispatch::Discard(_)));
    assert!(matches!(tsr.dispatch_event::<u8, u8, u8>(ThreeStageEvent::ValidatorEvent(3)), Dispatch::ToValidator(3)));
}

#[test]
fn lifecycle_failures_and_stays() {
    assert_eq!(
        next_transition(Stage::Initializing, true, false, true),
        Err(TransitionError::InitializerFailed)
    );
    assert_eq!(
        next_transition(Stage::Initializing, true, true, false),
        Err(TransitionError::QueueNotEmpty)
    );
    assert_eq!(next_transition(Stage::Initializing, false, false, false), Ok(Transition::Stay));
    assert_eq!(next_transition(Stage::Validating, true, true, true), Ok(Transition::Stay));
    let tsr: ThreeStageReactor<u8, u8, u8> = ThreeStageReactor::NotStarted;
    assert_eq!(tsr.stage(), Stage::NotStarted);
    assert!(matches!(tsr.dispatch_event::<u8, u8, u8>(ThreeStageEvent::InitializerEvent(1)), Dispatch::Discard(_)));
    let tsr: ThreeStageReactor<u8, u8, u8> = ThreeStageReactor::Initializer(0);
    assert_eq!(tsr.stage(), Stage::Initializing);
    assert!(matches!(tsr.dispatch_event::<u8, u8, u8>(ThreeStageEvent::InitializerEvent(1)), Dispatch::ToInitializer(1)));
    assert_eq!(ThreeStageEvent::<u8, u8, u8>::JoinerEvent(0).stage(), Stage::Joining);
}

#[test]
fn validator_routes_each_event_to_one_component() {
    let r = reactor();
    let sender = NodeId::from_fingerprint([9; 64]);
    match r.dispatch_event::<Types>(Event::NetworkRequest(12)) {
        Routed::Network(e) => assert_eq!(e, "request 12"),
        _ => panic!("network request not routed to the network"),
    }
    match r.dispatch_event::<Types>(Event::MessageReceived { sender, payload: Message::Consensus(3) }) {
        Routed::Consensus(e) => assert_eq!(e, "consensus 3 from 9"),
        _ => panic!("consensus message not routed to consensus"),
    }
    match r.dispatch_event::<Types>(Event::MessageReceived { sender, payload: Message::Pinger(4) }) {
        Routed::Pinger(e) => assert_eq!(e, "ping 4"),
        _ => panic!("pinger message not routed to the pinger"),
    }
    match r.dispatch_event::<Types>(Event::MessageReceived { sender, payload: Message::DeployGossiper(5) }) {
        Routed::DeployGossiper(e) => assert_eq!(e, "gossip 5"),
        _ => panic!("gossip message not routed to the gossiper"),
    }
    assert!(matches!(r.dispatch_event::<Types>(Event::MetricsRequest(1)), Routed::Metrics(1)));
    assert!(matches!(r.dispatch_event::<Types>(Event::Storage(2)), Routed::Storage(2)));
    assert!(matches!(r.dispatch_event::<Types>(Event::ContractRuntime(3)), Routed::ContractRuntime(3)));
    assert!(matches!(r.dispatch_event::<Types>(Event::ApiServer(4)), Routed::ApiServer(4)));
}

#[test]
fn validator_new_collects_tagged_initial_effects() {
    let (r, effects) = Reactor::new::<&str, u8>(
        initializer(),
        (),
        (),
        vec![1, 2],
        (),
        vec![3],
        (),
        (),
        vec![4],
        (),
    );
    assert_eq!(r.storage, "storage");
    assert_eq!(r.contract_runtime, "runtime");
    assert_eq!(
        effects,
        vec![
            (ComponentId::Network, 1),
            (ComponentId::Network, 2),
            (ComponentId::Pinger, 3),
            (ComponentId::Consensus, 4)
        ]
    );
    // The same inputs give the same initial effects.
    let (_, again) = Reactor::new::<&str, u8>(
        initializer(),
        (),
        (),
        vec![1, 2],
        (),
        vec![3],
        (),
        (),
        vec![4],
        (),
    );
    assert_eq!(effects, again);
}

#[test]
fn consensus_config_default() {
    let c: Config<Vec<u8>> = Config::default();
    assert!(matches!(c.secret_key_path, External::Missing));
    assert_eq!(c.unit_hashes_folder, "");
    assert_eq!(c.pending_vertex_timeout.millis, 10_000);
}

#[test]
fn execute_request_take_deploys() {
    let mut req: ExecuteRequest<u8, String, &str> = ExecuteRequest::new(
        Digest::from_bytes([1; 32]),
        42,
        vec![Ok(1), Err("failed".to_string())],
        ProtocolVersion::new(1, 0, 0),
        "proposer",
    );
    assert_eq!(req.block_time, 42);
    let deploys = req.take_deploys();
    assert_eq!(deploys, vec![Ok(1), Err("failed".to_string())]);
    assert!(req.deploys.is_empty());
    assert_eq!(req.proposer, "proposer");
    assert!(req.take_deploys().is_empty());
}

#[test]
fn reinjected_effect_output_returns_to_its_component() {
    let r = reactor();
    let out: Routed<Types> = Routed::Consensus("vote".to_string());
    match r.dispatch_event::<Types>(out.into_event()) {
        Routed::Consensus(e) => assert_eq!(e, "vote"),
        _ => panic!("effect output did not return to consensus"),
    }
    assert!(matches!(
        r.dispatch_event::<Types>(Routed::<Types>::Metrics(7).into_event()),
        Routed::Metrics(7)
    ));
    assert!(matches!(Routed::<Types>::Storage(1).into_event(), Event::Storage(1)));
}
