//! The reactor that initializes a node: it loads the chainspec and sets up storage and the
//! contract runtime, which later stages take over.

use vstd::prelude::*;

verus! {

/// Progress of the chainspec loader: `None` while it runs, then whether it succeeded.
#[derive(Debug)]
pub struct ChainspecLoader {
    completed_successfully: Option<bool>,
}

impl ChainspecLoader {
    pub closed spec fn outcome(&self) -> Option<bool> {
        self.completed_successfully
    }

    /// A loader that has not finished yet.
    pub fn new() -> (r: ChainspecLoader)
        ensures
            r.outcome() is None,
    {
        ChainspecLoader { completed_successfully: None }
    }

    /// Records that loading finished, successfully or not.
    pub fn finish(&mut self, success: bool)
        ensures
            final(self).outcome() == Some(success),
    {
        self.completed_successfully = Some(success);
    }

    /// Whether loading has finished.
    pub fn is_stopped(&self) -> (r: bool)
        ensures
            r == self.outcome() is Some,
    {
        self.completed_successfully.is_some()
    }

    /// Whether loading has finished successfully.
    pub fn stopped_successfully(&self) -> (r: bool)
        ensures
            r == (self.outcome() == Some(true)),
    {
        match self.completed_successfully {
            Some(success) => success,
            None => false,
        }
    }
}

/// The initializer reactor: its configuration and components. `C` is the configuration, `S`
/// the storage component and `R` the contract runtime.
#[derive(Debug)]
pub struct Initializer<C, S, R> {
    pub config: C,
    pub chainspec: ChainspecLoader,
    pub storage: S,
    pub contract_runtime: R,
}

impl<C, S, R> Initializer<C, S, R> {
    /// An initializer whose chainspec loader has not finished.
    pub fn new(config: C, storage: S, contract_runtime: R) -> (r: Self)
        ensures
            r.config == config,
            r.storage == storage,
            r.contract_runtime == contract_runtime,
            r.chainspec.outcome() is None,
    {
        Initializer { config, chainspec: ChainspecLoader::new(), storage, contract_runtime }
    }

    /// Whether initialization has finished.
    pub fn is_stopped(&self) -> (r: bool)
        ensures
            r == self.chainspec.outcome() is Some,
    {
        self.chainspec.is_stopped()
    }

    /// Whether initialization has finished successfully.
    pub fn stopped_successfully(&self) -> (r: bool)
        ensures
            r == (self.chainspec.outcome() == Some(true)),
    {
        self.chainspec.stopped_successfully()
    }

    /// The state that later stages take over: configuration, storage and contract runtime.
    pub fn into_parts(self) -> (r: (C, S, R))
        ensures
            r == (self.config, self.storage, self.contract_runtime),
    {
        (self.config, self.storage, self.contract_runtime)
    }
}

/// The event types of the initializer's components and its requests, and the conversions of
/// routed requests into component events.
pub trait InitializerTypes {
    type ChainspecEvent;
    type StorageEvent;
    type ContractRuntimeEvent;
    type StorageRequest;
    type ContractRuntimeRequest;
    type NetworkRequest;

    /// The storage component's event for a request addressed to it.
    spec fn spec_storage_request(request: Self::StorageRequest) -> Self::StorageEvent;

    /// The contract runtime's event for a request addressed to it.
    spec fn spec_contract_runtime_request(
        request: Self::ContractRuntimeRequest,
    ) -> Self::ContractRuntimeEvent;

    /// Builds the storage component's event for a request addressed to it.
    fn storage_request(request: Self::StorageRequest) -> (r: Self::StorageEvent)
        ensures
            r == Self::spec_storage_request(request),
    ;

    /// Builds the contract runtime's event for a request addressed to it.
    fn contract_runtime_request(request: Self::ContractRuntimeRequest) -> (r:
        Self::ContractRuntimeEvent)
        ensures
            r == Self::spec_contract_runtime_request(request),
    ;
}

/// Event of the initializer reactor.
pub enum InitializerEvent<T: InitializerTypes> {
    Chainspec(T::ChainspecEvent),
    Storage(T::StorageEvent),
    ContractRuntime(T::ContractRuntimeEvent),
    StorageRequest(T::StorageRequest),
    ContractRuntimeRequest(T::ContractRuntimeRequest),
    /// There is no network traffic during initialization: such requests are discarded.
    NetworkRequest(T::NetworkRequest),
}

/// An initializer event in the event type of the component that handles it.
pub enum InitializerRouted<T: InitializerTypes> {
    Chainspec(T::ChainspecEvent),
    Storage(T::StorageEvent),
    ContractRuntime(T::ContractRuntimeEvent),
}

/// A component of the initializer.
#[derive(Clone, Copy, Debug, PartialEq, Eq, Structural)]
pub enum InitializerComponent {
    Chainspec,
    Storage,
    ContractRuntime,
}

impl<T: InitializerTypes> InitializerRouted<T> {
    pub open spec fn target(&self) -> InitializerComponent {
        match self {
            InitializerRouted::Chainspec(_) => InitializerComponent::Chainspec,
            InitializerRouted::Storage(_) => InitializerComponent::Storage,
            InitializerRouted::ContractRuntime(_) => InitializerComponent::ContractRuntime,
        }
    }
}

impl<T: InitializerTypes> InitializerEvent<T> {
    /// The component event an event becomes, `None` for a discarded request.
    pub open spec fn spec_route(self) -> Option<InitializerRouted<T>> {
        match self {
            InitializerEvent::Chainspec(e) => Some(InitializerRouted::Chainspec(e)),
            InitializerEvent::Storage(e) => Some(InitializerRouted::Storage(e)),
            InitializerEvent::ContractRuntime(e) => Some(InitializerRouted::ContractRuntime(e)),
            InitializerEvent::StorageRequest(req) => Some(
                InitializerRouted::Storage(T::spec_storage_request(req)),
            ),
            InitializerEvent::ContractRuntimeRequest(req) => Some(
                InitializerRouted::ContractRuntime(T::spec_contract_runtime_request(req)),
            ),
            InitializerEvent::NetworkRequest(_) => None,
        }
    }

    /// The component that handles the event, `None` for a discarded request.
    pub open spec fn target(&self) -> Option<InitializerComponent> {
        match self {
            InitializerEvent::Chainspec(_) => Some(InitializerComponent::Chainspec),
            InitializerEvent::Storage(_) => Some(InitializerComponent::Storage),
            InitializerEvent::ContractRuntime(_) => Some(InitializerComponent::ContractRuntime),
            InitializerEvent::StorageRequest(_) => Some(InitializerComponent::Storage),
            InitializerEvent::ContractRuntimeRequest(_) => Some(
                InitializerComponent::ContractRuntime,
            ),
            InitializerEvent::NetworkRequest(_) => None,
        }
    }
}

impl<C, S, R> Initializer<C, S, R> {
    /// Routes an event to the one component that handles it, converted into that component's
    /// event type; a network request goes to no component and is dropped.
    pub fn dispatch_event<T: InitializerTypes>(&self, event: InitializerEvent<T>) -> (r: Option<
        InitializerRouted<T>,
    >)
        ensures
            r == event.spec_route(),
            match r {
                Some(routed) => event.target() == Some(routed.target()),
                None => event.target() is None,
            },
            match event {
                InitializerEvent::Chainspec(e) => r == Some(InitializerRouted::<T>::Chainspec(e)),
                InitializerEvent::Storage(e) => r == Some(InitializerRouted::<T>::Storage(e)),
                InitializerEvent::ContractRuntime(e) => r == Some(
                    InitializerRouted::<T>::ContractRuntime(e),
                ),
                _ => true,
            },
    {
        match event {
            InitializerEvent::Chainspec(e) => Some(InitializerRouted::Chainspec(e)),
            InitializerEvent::Storage(e) => Some(InitializerRouted::Storage(e)),
            InitializerEvent::ContractRuntime(e) => Some(InitializerRouted::ContractRuntime(e)),
            InitializerEvent::StorageRequest(req) => Some(
                InitializerRouted::Storage(T::storage_request(req)),
            ),
            InitializerEvent::ContractRuntimeRequest(req) => Some(
                InitializerRouted::ContractRuntime(T::contract_runtime_request(req)),
            ),
            InitializerEvent::NetworkRequest(_) => None,
        }
    }
}

} // verus!
