//! The validator reactor: the components of a validator node and the routing of events among
//! them.
//!
//! The reactor knows the components' event types only by name, through [`ValidatorTypes`]. It
//! decides which component handles each event, in the component's own event type; running the
//! component's handler and its effects happens outside.

use crate::initializer::Initializer;
use crate::types::NodeId;
use vstd::prelude::*;

verus! {

/// The event and message types of the validator's components, and the conversions the reactor
/// needs between them.
pub trait ValidatorTypes {
    type NetworkEvent;
    type PingerEvent;
    type StorageRequest;
    type ApiEvent;
    type ConsensusEvent;
    type GossiperEvent;
    type MetricsRequest;
    type ContractRuntimeEvent;
    /// A request to the network, with a payload of the reactor's [`Message`] type.
    type NetworkRequest;
    type PingerMessage;
    type ConsensusMessage;
    type GossiperMessage;

    /// The network component's event for a request addressed to it.
    spec fn spec_network_request(request: Self::NetworkRequest) -> Self::NetworkEvent;

    /// The pinger's event for a message received from `sender`.
    spec fn spec_pinger_message(sender: NodeId, msg: Self::PingerMessage) -> Self::PingerEvent;

    /// The consensus component's event for a message received from `sender`.
    spec fn spec_consensus_message(
        sender: NodeId,
        msg: Self::ConsensusMessage,
    ) -> Self::ConsensusEvent;

    /// The deploy gossiper's event for a message received from `sender`.
    spec fn spec_gossiper_message(
        sender: NodeId,
        msg: Self::GossiperMessage,
    ) -> Self::GossiperEvent;

    /// Builds the network component's event for a request addressed to it.
    fn network_request(request: Self::NetworkRequest) -> (r: Self::NetworkEvent)
        ensures
            r == Self::spec_network_request(request),
    ;

    /// Builds the pinger's event for a message received from `sender`.
    fn pinger_message(sender: NodeId, msg: Self::PingerMessage) -> (r: Self::PingerEvent)
        ensures
            r == Self::spec_pinger_message(sender, msg),
    ;

    /// Builds the consensus component's event for a message received from `sender`.
    fn consensus_message(sender: NodeId, msg: Self::ConsensusMessage) -> (r: Self::ConsensusEvent)
        ensures
            r == Self::spec_consensus_message(sender, msg),
    ;

    /// Builds the deploy gossiper's event for a message received from `sender`.
    fn gossiper_message(sender: NodeId, msg: Self::GossiperMessage) -> (r: Self::GossiperEvent)
        ensures
            r == Self::spec_gossiper_message(sender, msg),
    ;
}

/// A message between validator nodes.
pub enum Message<T: ValidatorTypes> {
    /// Pinger component message.
    Pinger(T::PingerMessage),
    /// Consensus component message.
    Consensus(T::ConsensusMessage),
    /// Deploy gossiper component message.
    DeployGossiper(T::GossiperMessage),
}

/// Top-level event of the validator reactor.
pub enum Event<T: ValidatorTypes> {
    /// Network event.
    Network(T::NetworkEvent),
    /// Pinger event.
    Pinger(T::PingerEvent),
    /// Storage request.
    Storage(T::StorageRequest),
    /// API server event.
    ApiServer(T::ApiEvent),
    /// Consensus event.
    Consensus(T::ConsensusEvent),
    /// Deploy gossiper event.
    DeployGossiper(T::GossiperEvent),
    /// Request to the network.
    NetworkRequest(T::NetworkRequest),
    /// Request to the metrics component.
    MetricsRequest(T::MetricsRequest),
    /// Announcement that a message arrived from a peer.
    MessageReceived { sender: NodeId, payload: Message<T> },
    /// Contract runtime event.
    ContractRuntime(T::ContractRuntimeEvent),
}

/// A component of the validator reactor.
#[derive(Clone, Copy, Debug, PartialEq, Eq, Structural)]
pub enum ComponentId {
    Metrics,
    Network,
    Pinger,
    Storage,
    ContractRuntime,
    ApiServer,
    Consensus,
    DeployGossiper,
}

/// An event in the event type of the component that handles it.
pub enum Routed<T: ValidatorTypes> {
    Network(T::NetworkEvent),
    Pinger(T::PingerEvent),
    Storage(T::StorageRequest),
    ApiServer(T::ApiEvent),
    Consensus(T::ConsensusEvent),
    DeployGossiper(T::GossiperEvent),
    Metrics(T::MetricsRequest),
    ContractRuntime(T::ContractRuntimeEvent),
}

impl<T: ValidatorTypes> Routed<T> {
    /// The component that handles the event.
    pub open spec fn target(&self) -> ComponentId {
        match self {
            Routed::Network(_) => ComponentId::Network,
            Routed::Pinger(_) => ComponentId::Pinger,
            Routed::Storage(_) => ComponentId::Storage,
            Routed::ApiServer(_) => ComponentId::ApiServer,
            Routed::Consensus(_) => ComponentId::Consensus,
            Routed::DeployGossiper(_) => ComponentId::DeployGossiper,
            Routed::Metrics(_) => ComponentId::Metrics,
            Routed::ContractRuntime(_) => ComponentId::ContractRuntime,
        }
    }
}

impl<T: ValidatorTypes> Routed<T> {
    /// The reactor event that carries this component event.
    pub open spec fn spec_into_event(self) -> Event<T> {
        match self {
            Routed::Network(e) => Event::Network(e),
            Routed::Pinger(e) => Event::Pinger(e),
            Routed::Storage(e) => Event::Storage(e),
            Routed::ApiServer(e) => Event::ApiServer(e),
            Routed::Consensus(e) => Event::Consensus(e),
            Routed::DeployGossiper(e) => Event::DeployGossiper(e),
            Routed::Metrics(e) => Event::MetricsRequest(e),
            Routed::ContractRuntime(e) => Event::ContractRuntime(e),
        }
    }

    /// Wraps an event that a component's effect yielded into the reactor event type, to be
    /// scheduled again.
    pub fn into_event(self) -> (r: Event<T>)
        ensures
            r == self.spec_into_event(),
            r.target() == self.target(),
    {
        match self {
            Routed::Network(e) => Event::Network(e),
            Routed::Pinger(e) => Event::Pinger(e),
            Routed::Storage(e) => Event::Storage(e),
            Routed::ApiServer(e) => Event::ApiServer(e),
            Routed::Consensus(e) => Event::Consensus(e),
            Routed::DeployGossiper(e) => Event::DeployGossiper(e),
            Routed::Metrics(e) => Event::MetricsRequest(e),
            Routed::ContractRuntime(e) => Event::ContractRuntime(e),
        }
    }
}

impl<T: ValidatorTypes> Event<T> {
    /// The component that handles the event, with the event in that component's type: requests
    /// to the network and received messages are converted, every other event is carried as it is.
    pub open spec fn spec_route(self) -> Routed<T> {
        match self {
            Event::Network(e) => Routed::Network(e),
            Event::Pinger(e) => Routed::Pinger(e),
            Event::Storage(e) => Routed::Storage(e),
            Event::ApiServer(e) => Routed::ApiServer(e),
            Event::Consensus(e) => Routed::Consensus(e),
            Event::DeployGossiper(e) => Routed::DeployGossiper(e),
            Event::NetworkRequest(req) => Routed::Network(T::spec_network_request(req)),
            Event::MetricsRequest(req) => Routed::Metrics(req),
            Event::MessageReceived { sender, payload } => match payload {
                Message::Consensus(msg) => Routed::Consensus(T::spec_consensus_message(sender, msg)),
                Message::Pinger(msg) => Routed::Pinger(T::spec_pinger_message(sender, msg)),
                Message::DeployGossiper(msg) => Routed::DeployGossiper(
                    T::spec_gossiper_message(sender, msg),
                ),
            },
            Event::ContractRuntime(e) => Routed::ContractRuntime(e),
        }
    }

    /// The component event an event carries as it is, for the events that need no conversion.
    pub open spec fn carried(self) -> Option<Routed<T>> {
        match self {
            Event::Network(e) => Some(Routed::Network(e)),
            Event::Pinger(e) => Some(Routed::Pinger(e)),
            Event::Storage(e) => Some(Routed::Storage(e)),
            Event::ApiServer(e) => Some(Routed::ApiServer(e)),
            Event::Consensus(e) => Some(Routed::Consensus(e)),
            Event::DeployGossiper(e) => Some(Routed::DeployGossiper(e)),
            Event::MetricsRequest(e) => Some(Routed::Metrics(e)),
            Event::ContractRuntime(e) => Some(Routed::ContractRuntime(e)),
            Event::NetworkRequest(_) => None,
            Event::MessageReceived { .. } => None,
        }
    }

    /// The component that handles the event.
    pub open spec fn target(&self) -> ComponentId {
        match self {
            Event::Network(_) => ComponentId::Network,
            Event::Pinger(_) => ComponentId::Pinger,
            Event::Storage(_) => ComponentId::Storage,
            Event::ApiServer(_) => ComponentId::ApiServer,
            Event::Consensus(_) => ComponentId::Consensus,
            Event::DeployGossiper(_) => ComponentId::DeployGossiper,
            Event::NetworkRequest(_) => ComponentId::Network,
            Event::MetricsRequest(_) => ComponentId::Metrics,
            Event::MessageReceived { payload, .. } => match payload {
                Message::Pinger(_) => ComponentId::Pinger,
                Message::Consensus(_) => ComponentId::Consensus,
                Message::DeployGossiper(_) => ComponentId::DeployGossiper,
            },
            Event::ContractRuntime(_) => ComponentId::ContractRuntime,
        }
    }
}

/// The validator node reactor: one field per component.
#[derive(Debug)]
pub struct Reactor<M, N, P, S, R, A, C, G> {
    pub metrics: M,
    pub net: N,
    pub pinger: P,
    pub storage: S,
    pub contract_runtime: R,
    pub api_server: A,
    pub consensus: C,
    pub deploy_gossiper: G,
}

/// Effects tagged with the component that produced them, so that the events they yield are
/// handed back to that component.
pub open spec fn tagged<F>(id: ComponentId, effects: Seq<F>) -> Seq<(ComponentId, F)> {
    effects.map_values(|f: F| (id, f))
}

/// The initial effects of a validator reactor, given those of the network, the pinger and
/// consensus.
pub open spec fn initial_effects<F>(net: Seq<F>, pinger: Seq<F>, consensus: Seq<F>) -> Seq<
    (ComponentId, F),
> {
    tagged(ComponentId::Network, net) + tagged(ComponentId::Pinger, pinger) + tagged(
        ComponentId::Consensus,
        consensus,
    )
}

/// Constructing the reactor twice from components whose constructors yielded the same effects
/// gives the same initial effects.
pub proof fn lemma_construction_repeatable<F>(
    net1: Seq<F>,
    pinger1: Seq<F>,
    consensus1: Seq<F>,
    net2: Seq<F>,
    pinger2: Seq<F>,
    consensus2: Seq<F>,
)
    requires
        net1.to_multiset() == net2.to_multiset(),
        pinger1.to_multiset() == pinger2.to_multiset(),
        consensus1.to_multiset() == consensus2.to_multiset(),
    ensures
        initial_effects(net1, pinger1, consensus1).to_multiset() == initial_effects(
            net2,
            pinger2,
            consensus2,
        ).to_multiset(),
{
    lemma_tagged_multiset(ComponentId::Network, net1, net2);
    lemma_tagged_multiset(ComponentId::Pinger, pinger1, pinger2);
    lemma_tagged_multiset(ComponentId::Consensus, consensus1, consensus2);
    let (a1, b1, c1) = (
        tagged(ComponentId::Network, net1),
        tagged(ComponentId::Pinger, pinger1),
        tagged(ComponentId::Consensus, consensus1),
    );
    let (a2, b2, c2) = (
        tagged(ComponentId::Network, net2),
        tagged(ComponentId::Pinger, pinger2),
        tagged(ComponentId::Consensus, consensus2),
    );
    vstd::seq_lib::lemma_multiset_commutative(a1, b1);
    vstd::seq_lib::lemma_multiset_commutative(a1 + b1, c1);
    vstd::seq_lib::lemma_multiset_commutative(a2, b2);
    vstd::seq_lib::lemma_multiset_commutative(a2 + b2, c2);
}

/// How often a tagged effect occurs after tagging: as often as the effect did, under its tag.
proof fn lemma_tagged_count<F>(id: ComponentId, s: Seq<F>, j: ComponentId, x: F)
    ensures
        tagged(id, s).to_multiset().count((j, x)) == if j == id {
            s.to_multiset().count(x)
        } else {
            0
        },
    decreases s.len(),
{
    broadcast use vstd::seq_lib::group_to_multiset_ensures;

    if s.len() == 0 {
        assert(tagged(id, s) =~= Seq::<(ComponentId, F)>::empty());
    } else {
        let init = s.drop_last();
        lemma_tagged_count(id, init, j, x);
        assert(s =~= init.push(s.last()));
        assert(tagged(id, s) =~= tagged(id, init).push((id, s.last())));
    }
}

proof fn lemma_tagged_multiset<F>(id: ComponentId, s1: Seq<F>, s2: Seq<F>)
    requires
        s1.to_multiset() == s2.to_multiset(),
    ensures
        tagged(id, s1).to_multiset() == tagged(id, s2).to_multiset(),
{
    assert forall|p: (ComponentId, F)| tagged(id, s1).to_multiset().count(p) == tagged(
        id,
        s2,
    ).to_multiset().count(p) by {
        lemma_tagged_count(id, s1, p.0, p.1);
        lemma_tagged_count(id, s2, p.0, p.1);
    }
    assert(tagged(id, s1).to_multiset() =~= tagged(id, s2).to_multiset());
}

/// Appends `effects`, tagged with `id`, to `out`.
pub fn wrap_effects<F>(id: ComponentId, effects: Vec<F>, out: &mut Vec<(ComponentId, F)>)
    ensures
        final(out)@ == old(out)@ + tagged(id, effects@),
{
    let ghost all = effects@;
    let total = effects.len();
    let mut rest = effects;
    let mut i: usize = 0;
    while rest.len() > 0
        invariant
            i <= all.len(),
            all.len() == total,
            rest@ == all.subrange(i as int, all.len() as int),
            out@ == old(out)@ + tagged(id, all.subrange(0, i as int)),
        decreases rest@.len(),
    {
        let f = rest.remove(0);
        out.push((id, f));
        assert(tagged(id, all.subrange(0, i + 1)) =~= tagged(id, all.subrange(0, i as int)).push(
            (id, f),
        ));
        i = i + 1;
        assert(rest@ =~= all.subrange(i as int, all.len() as int));
    }
    assert(all.subrange(0, i as int) =~= all);
}

impl<M, N, P, S, R, A, C, G> Reactor<M, N, P, S, R, A, C, G> {
    /// Builds the validator reactor from the initializer's storage and contract runtime and the
    /// newly constructed components; the initial effects are those of the network, the pinger
    /// and consensus, in that order, each tagged with its component.
    pub fn new<Cfg, F>(
        initializer: Initializer<Cfg, S, R>,
        metrics: M,
        net: N,
        net_effects: Vec<F>,
        pinger: P,
        pinger_effects: Vec<F>,
        api_server: A,
        consensus: C,
        consensus_effects: Vec<F>,
        deploy_gossiper: G,
    ) -> (r: (Self, Vec<(ComponentId, F)>))
        ensures
            r.0.metrics == metrics,
            r.0.net == net,
            r.0.pinger == pinger,
            r.0.storage == initializer.storage,
            r.0.contract_runtime == initializer.contract_runtime,
            r.0.api_server == api_server,
            r.0.consensus == consensus,
            r.0.deploy_gossiper == deploy_gossiper,
            r.1@ == initial_effects(net_effects@, pinger_effects@, consensus_effects@),
    {
        let (_config, storage, contract_runtime) = initializer.into_parts();
        let mut effects: Vec<(ComponentId, F)> = Vec::new();
        wrap_effects(ComponentId::Network, net_effects, &mut effects);
        wrap_effects(ComponentId::Pinger, pinger_effects, &mut effects);
        wrap_effects(ComponentId::Consensus, consensus_effects, &mut effects);
        assert(effects@ =~= tagged(ComponentId::Network, net_effects@) + tagged(
            ComponentId::Pinger,
            pinger_effects@,
        ) + tagged(ComponentId::Consensus, consensus_effects@));
        (
            Reactor {
                metrics,
                net,
                pinger,
                storage,
                contract_runtime,
                api_server,
                consensus,
                deploy_gossiper,
            },
            effects,
        )
    }

    /// Routes an event to the one component that handles it, converted into that component's
    /// event type: a component event goes to its component, a network request to the network, a
    /// metrics request to metrics, and a received message to the component its payload is for.
    pub fn dispatch_event<T: ValidatorTypes>(&self, event: Event<T>) -> (r: Routed<T>)
        ensures
            r == event.spec_route(),
            r.target() == event.target(),
            event.carried() matches Some(c) ==> r == c,
    {
        match event {
            Event::Network(e) => Routed::Network(e),
            Event::Pinger(e) => Routed::Pinger(e),
            Event::Storage(e) => Routed::Storage(e),
            Event::ApiServer(e) => Routed::ApiServer(e),
            Event::Consensus(e) => Routed::Consensus(e),
            Event::DeployGossiper(e) => Routed::DeployGossiper(e),
            Event::NetworkRequest(req) => Routed::Network(T::network_request(req)),
            Event::MetricsRequest(req) => Routed::Metrics(req),
            Event::MessageReceived { sender, payload } => match payload {
                Message::Consensus(msg) => Routed::Consensus(T::consensus_message(sender, msg)),
                Message::Pinger(msg) => Routed::Pinger(T::pinger_message(sender, msg)),
                Message::DeployGossiper(msg) => Routed::DeployGossiper(
                    T::gossiper_message(sender, msg),
                ),
            },
            Event::ContractRuntime(e) => Routed::ContractRuntime(e),
        }
    }
}

/// An event that a component's effect yields, once scheduled again, is dispatched back to that
/// same component, unchanged.
pub proof fn lemma_reinjected_event_returns<T: ValidatorTypes>(r: Routed<T>)
    ensures
        r.spec_into_event().carried() == Some(r),
        r.spec_into_event().target() == r.target(),
{
}

} // verus!
