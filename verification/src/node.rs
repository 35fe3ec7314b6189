//! The node: a process's handle on the fabric.

use crate::backend::{
    DeserializeError, MonitoringCreateMonitorError, MonitoringStateError, NamedConceptListError,
    Sleep, State, StaticStorageOpenError, StaticStorageReadError,
};
use crate::cleanup::{remove_node, Cleanup, CleanupView};
use crate::details::{details_path, monitoring_path, Config, NodeDetails, NodeName};
use crate::failure::{NodeListFailure, NodeReadStorageFailure};
use crate::file_name::file_name_bytes;
use crate::listing::{all_registrations, list_all_nodes, registered_ids, Listing, ListingView};
use crate::node_id::NodeId;
use crate::registered_services::RegisteredServices;
use iceoryx2_bb_system_types::file_name::FileName;
use std::time::Duration;
use vstd::prelude::*;

verus! {

/// The kinds of things that a flavour of the fabric hands to a node.
pub trait Service {
    /// The token whose existence shows peers that the node is alive.
    type Token;

    /// The open artifact of the node's details.
    type StaticStorage;

    /// The handle under which a service is open in the process.
    type Handle: Copy;
}

/// What the main loop's wait reports.
#[derive(Debug, Clone, Copy, PartialEq, Eq, Hash, Structural)]
pub enum NodeEvent {
    /// The cycle time passed.
    Tick,
    /// The process was asked to terminate.
    TerminationRequest,
    /// A signal interrupted the wait.
    InterruptSignal,
}

/// What a wait does after it looked for a pending termination request.
#[derive(Debug, Clone, Copy)]
pub enum WaitStep {
    /// Sleep for this time, then report how the sleep ended.
    Sleep(Duration),
    /// Return this event at once.
    Return(NodeEvent),
}

/// How to learn whether a node is alive.
#[derive(Debug)]
pub enum LivenessQuery {
    /// The state is known without asking.
    Known(State),
    /// Ask the monitor of the token registered under this name.
    AskMonitor(FileName),
}

/// What reading the opened artifact of a node's details gave.
#[derive(Debug)]
pub enum StoredDetails {
    /// The content could not be read.
    Unreadable(StaticStorageReadError),
    /// The content was read and does not decode.
    Undecodable(DeserializeError),
    /// The details that the content holds.
    Decoded(NodeDetails),
}

/// What all handles on one node share.
pub struct SharedNode<S: Service> {
    id: NodeId,
    details: NodeDetails,
    monitoring_token: Option<S::Token>,
    registered_services: RegisteredServices<S::Handle>,
    details_storage: S::StaticStorage,
}

impl<S: Service> SharedNode<S> {
    pub closed spec fn spec_id(&self) -> NodeId {
        self.id
    }

    pub closed spec fn spec_details(&self) -> NodeDetails {
        self.details
    }

    pub closed spec fn spec_token(&self) -> Option<S::Token> {
        self.monitoring_token
    }

    pub closed spec fn spec_services(&self) -> RegisteredServices<S::Handle> {
        self.registered_services
    }

    pub closed spec fn spec_storage(&self) -> S::StaticStorage {
        self.details_storage
    }

    /// A node that holds its token and has no service open.
    pub fn new(id: NodeId, details: NodeDetails, token: S::Token, storage: S::StaticStorage) -> (shared:
        SharedNode<S>)
        ensures
            shared.spec_id() == id,
            shared.spec_details() == details,
            shared.spec_token() == Some(token),
            shared.spec_storage() == storage,
            shared.spec_services().wf(),
            shared.spec_services()@ == Map::<Seq<char>, (S::Handle, nat)>::empty(),
    {
        SharedNode {
            id,
            details,
            monitoring_token: Some(token),
            registered_services: RegisteredServices::new(),
            details_storage: storage,
        }
    }

    /// The configuration of the node's fabric.
    pub fn config(&self) -> (config: &Config)
        ensures
            config@ == self.spec_details()@.config,
    {
        self.details.config()
    }

    /// The node's identifier.
    pub fn id(&self) -> (id: &NodeId)
        ensures
            *id == self.spec_id(),
    {
        &self.id
    }

    /// The services that are open through the node.
    pub fn registered_services(&self) -> (services: &RegisteredServices<S::Handle>)
        ensures
            *services == self.spec_services(),
    {
        &self.registered_services
    }

    /// The services that are open through the node, to open and close
    /// them.
    pub fn registered_services_mut(&mut self) -> (services: &mut RegisteredServices<S::Handle>)
        ensures
            *services == old(self).spec_services(),
            final(self).spec_services() == *final(services),
            final(self).spec_id() == old(self).spec_id(),
            final(self).spec_details() == old(self).spec_details(),
            final(self).spec_token() == old(self).spec_token(),
            final(self).spec_storage() == old(self).spec_storage(),
    {
        &mut self.registered_services
    }

    /// What is due when the last handle on the node goes: a node that
    /// still holds its token removes its own resources; one whose token
    /// was taken away leaves them where they are.
    pub fn teardown(&self) -> (removal: Option<Cleanup>)
        ensures
            removal.is_some() == self.spec_token().is_some(),
            removal matches Some(cleanup) ==> {
                &&& cleanup@ == CleanupView::begin_removal()
                &&& cleanup@.wf()
                &&& cleanup.spec_monitor_name() == self.spec_id().spec_file_name()
                &&& cleanup.spec_monitoring_path() == monitoring_path(
                    self.spec_details()@.config,
                )
                &&& cleanup.spec_details_path() == Some(
                    details_path(self.spec_details()@.config, self.spec_id().spec_file_name()),
                )
            },
    {
        if self.monitoring_token.is_some() {
            Some(remove_node(self.id, &self.details))
        } else {
            None
        }
    }
}

/// A process's handle on the fabric. It owns what the process creates
/// through it; peers find it in the fabric's registrations and clean up
/// after it when its process dies.
pub struct Node<S: Service> {
    shared: SharedNode<S>,
}

impl<S: Service> Node<S> {
    pub closed spec fn spec_shared(&self) -> SharedNode<S> {
        self.shared
    }

    /// The handle on what `shared` holds.
    pub fn from_shared(shared: SharedNode<S>) -> (node: Node<S>)
        ensures
            node.spec_shared() == shared,
    {
        Node { shared }
    }

    /// What all handles on the node share.
    pub fn shared(&self) -> (shared: &SharedNode<S>)
        ensures
            *shared == self.spec_shared(),
    {
        &self.shared
    }

    /// The node's name.
    pub fn name(&self) -> (name: &NodeName)
        ensures
            name@ == self.spec_shared().spec_details()@.name,
    {
        self.shared.details.name()
    }

    /// The configuration with which the node creates its entities.
    pub fn config(&self) -> (config: &Config)
        ensures
            config@ == self.spec_shared().spec_details()@.config,
    {
        self.shared.details.config()
    }

    /// The node's identifier.
    pub fn id(&self) -> (id: &NodeId)
        ensures
            *id == self.spec_shared().spec_id(),
    {
        &self.shared.id
    }

    /// The services that are open through the node, to open and close
    /// them.
    pub fn registered_services_mut(&mut self) -> (services: &mut RegisteredServices<S::Handle>)
        ensures
            *services == old(self).spec_shared().spec_services(),
            final(self).spec_shared().spec_services() == *final(services),
            final(self).spec_shared().spec_id() == old(self).spec_shared().spec_id(),
            final(self).spec_shared().spec_details() == old(self).spec_shared().spec_details(),
            final(self).spec_shared().spec_token() == old(self).spec_shared().spec_token(),
            final(self).spec_shared().spec_storage() == old(self).spec_shared().spec_storage(),
    {
        &mut self.shared.registered_services
    }

    /// Takes the node's token away, as the death of its process would.
    /// The node must still hold it.
    pub fn staged_death(&mut self) -> (token: S::Token)
        requires
            old(self).spec_shared().spec_token().is_some(),
        ensures
            Some(token) == old(self).spec_shared().spec_token(),
            final(self).spec_shared().spec_token().is_none(),
            final(self).spec_shared().spec_id() == old(self).spec_shared().spec_id(),
            final(self).spec_shared().spec_details() == old(self).spec_shared().spec_details(),
            final(self).spec_shared().spec_services() == old(self).spec_shared().spec_services(),
            final(self).spec_shared().spec_storage() == old(self).spec_shared().spec_storage(),
    {
        self.shared.monitoring_token.take().unwrap()
    }

    /// Begins a wait of `cycle_time`. A termination request that is
    /// pending is reported without sleeping.
    pub fn wait(&self, cycle_time: Duration, termination_requested: bool) -> (step: WaitStep)
        ensures
            termination_requested ==> step == WaitStep::Return(NodeEvent::TerminationRequest),
            !termination_requested ==> step == WaitStep::Sleep(cycle_time),
    {
        if termination_requested {
            WaitStep::Return(NodeEvent::TerminationRequest)
        } else {
            WaitStep::Sleep(cycle_time)
        }
    }

    /// Ends a wait whose sleep ended as `slept`. The clock must not have
    /// refused the sleep.
    pub fn woke(&self, slept: Sleep, termination_requested: bool) -> (event: NodeEvent)
        requires
            slept != Sleep::Failed,
        ensures
            event == Self::spec_woke(slept, termination_requested),
    {
        match slept {
            Sleep::InterruptedBySignal => NodeEvent::InterruptSignal,
            _ => {
                if termination_requested {
                    NodeEvent::TerminationRequest
                } else {
                    NodeEvent::Tick
                }
            },
        }
    }

    /// The event of a wait whose sleep ended as `slept`: a signal that
    /// woke the sleeper is reported as such; after a full sleep a
    /// termination request goes before the tick.
    pub open spec fn spec_woke(slept: Sleep, termination_requested: bool) -> NodeEvent {
        if slept == Sleep::InterruptedBySignal {
            NodeEvent::InterruptSignal
        } else if termination_requested {
            NodeEvent::TerminationRequest
        } else {
            NodeEvent::Tick
        }
    }

    /// How the process `own_pid` learns the state of the node `node_id`,
    /// which the process `node_pid` minted. Its own nodes are alive, and
    /// nobody is asked about them.
    pub fn get_node_state(own_pid: i32, node_pid: i32, node_id: &NodeId) -> (query: LivenessQuery)
        ensures
            node_pid == own_pid ==> query matches LivenessQuery::Known(State::Alive),
            node_pid != own_pid ==> (query matches LivenessQuery::AskMonitor(name)
                && file_name_bytes(name) == node_id.spec_file_name()),
    {
        if own_pid == node_pid {
            LivenessQuery::Known(State::Alive)
        } else {
            LivenessQuery::AskMonitor(node_id.as_file_name())
        }
    }

    /// The state that a monitor reported, or why it is not known.
    pub fn state_from_monitor(reported: Result<State, MonitoringStateError>) -> (state: Result<
        State,
        NodeListFailure,
    >)
        ensures
            state == Self::spec_state_from_monitor(reported),
    {
        match reported {
            Ok(state) => Ok(state),
            Err(MonitoringStateError::Interrupt) => Err(NodeListFailure::Interrupt),
            Err(MonitoringStateError::InternalError) => Err(NodeListFailure::InternalError),
        }
    }

    pub open spec fn spec_state_from_monitor(reported: Result<State, MonitoringStateError>) -> Result<
        State,
        NodeListFailure,
    > {
        match reported {
            Ok(state) => Ok(state),
            Err(MonitoringStateError::Interrupt) => Err(NodeListFailure::Interrupt),
            Err(MonitoringStateError::InternalError) => Err(NodeListFailure::InternalError),
        }
    }

    /// The state of a node from what building its monitor and asking the
    /// monitor gave.
    pub fn monitored_state(
        monitored: Result<Result<State, MonitoringStateError>, MonitoringCreateMonitorError>,
    ) -> (state: Result<State, NodeListFailure>)
        ensures
            state == Self::spec_monitored_state(monitored),
    {
        match monitored {
            Ok(reported) => Self::state_from_monitor(reported),
            Err(MonitoringCreateMonitorError::InsufficientPermissions) => Err(
                NodeListFailure::InsufficientPermissions,
            ),
            Err(MonitoringCreateMonitorError::Interrupt) => Err(NodeListFailure::Interrupt),
            Err(MonitoringCreateMonitorError::InternalError) => Err(NodeListFailure::InternalError),
        }
    }

    pub open spec fn spec_monitored_state(
        monitored: Result<Result<State, MonitoringStateError>, MonitoringCreateMonitorError>,
    ) -> Result<State, NodeListFailure> {
        match monitored {
            Ok(reported) => Self::spec_state_from_monitor(reported),
            Err(MonitoringCreateMonitorError::InsufficientPermissions) => Err(
                NodeListFailure::InsufficientPermissions,
            ),
            Err(MonitoringCreateMonitorError::Interrupt) => Err(NodeListFailure::Interrupt),
            Err(MonitoringCreateMonitorError::InternalError) => Err(NodeListFailure::InternalError),
        }
    }

    /// The opened artifact of a node's details. An artifact that does
    /// not exist is no failure; one that is reserved and not yet written
    /// counts as corrupted.
    pub fn open_node_storage<T>(opened: Result<T, StaticStorageOpenError>) -> (storage: Result<
        Option<T>,
        NodeReadStorageFailure,
    >)
        ensures
            match opened {
                Ok(found) => storage == Ok::<Option<T>, NodeReadStorageFailure>(Some(found)),
                Err(StaticStorageOpenError::DoesNotExist) => storage == Ok::<
                    Option<T>,
                    NodeReadStorageFailure,
                >(None),
                Err(StaticStorageOpenError::Read) => storage == Err::<
                    Option<T>,
                    NodeReadStorageFailure,
                >(NodeReadStorageFailure::ReadError),
                Err(StaticStorageOpenError::IsLocked) => storage == Err::<
                    Option<T>,
                    NodeReadStorageFailure,
                >(NodeReadStorageFailure::Corrupted),
                Err(StaticStorageOpenError::InternalError) => storage == Err::<
                    Option<T>,
                    NodeReadStorageFailure,
                >(NodeReadStorageFailure::InternalError),
            },
    {
        match opened {
            Ok(found) => Ok(Some(found)),
            Err(StaticStorageOpenError::DoesNotExist) => Ok(None),
            Err(StaticStorageOpenError::Read) => Err(NodeReadStorageFailure::ReadError),
            Err(StaticStorageOpenError::IsLocked) => Err(NodeReadStorageFailure::Corrupted),
            Err(StaticStorageOpenError::InternalError) => Err(NodeReadStorageFailure::InternalError),
        }
    }

    /// The buffer into which the content of an artifact of `len` bytes
    /// is read; `None` where the process cannot address that many bytes.
    pub fn read_buffer(len: u64) -> (buffer: Option<Vec<u8>>)
        ensures
            buffer.is_some() == (len <= usize::MAX),
            buffer matches Some(bytes) ==> bytes@ == Seq::new(len as nat, |i: int| 0x20u8),
    {
        if len > usize::MAX as u64 {
            return None;
        }
        let size: usize = len as usize;
        let mut bytes: Vec<u8> = Vec::new();
        let mut i: usize = 0;
        while i < size
            invariant
                i <= size,
                bytes@ == Seq::new(i as nat, |j: int| 0x20u8),
            decreases size - i,
        {
            bytes.push(0x20u8);
            assert(bytes@ =~= Seq::new((i + 1) as nat, |j: int| 0x20u8));
            i = i + 1;
        }
        Some(bytes)
    }

    /// The details of a node from what its artifact held; `None` stands
    /// for an artifact that does not exist.
    pub fn get_node_details(stored: Option<StoredDetails>) -> (details: Result<
        Option<NodeDetails>,
        NodeReadStorageFailure,
    >)
        ensures
            match stored {
                None => details == Ok::<Option<NodeDetails>, NodeReadStorageFailure>(None),
                Some(StoredDetails::Unreadable(_)) => details == Err::<
                    Option<NodeDetails>,
                    NodeReadStorageFailure,
                >(NodeReadStorageFailure::ReadError),
                Some(StoredDetails::Undecodable(_)) => details == Err::<
                    Option<NodeDetails>,
                    NodeReadStorageFailure,
                >(NodeReadStorageFailure::Corrupted),
                Some(StoredDetails::Decoded(found)) => details == Ok::<
                    Option<NodeDetails>,
                    NodeReadStorageFailure,
                >(Some(found)),
            },
    {
        match stored {
            None => Ok(None),
            Some(StoredDetails::Unreadable(_)) => Err(NodeReadStorageFailure::ReadError),
            Some(StoredDetails::Undecodable(_)) => Err(NodeReadStorageFailure::Corrupted),
            Some(StoredDetails::Decoded(found)) => Ok(Some(found)),
        }
    }

    /// Begins the enumeration of the nodes of a fabric from what listing
    /// its monitoring directory gave. Every listed name must be the
    /// registration of a node.
    pub fn list(listed: Result<Vec<FileName>, NamedConceptListError>) -> (listing: Listing)
        requires
            listed matches Ok(names) ==> all_registrations(names@),
        ensures
            listing@.wf(),
            match listed {
                Ok(names) => listing@ == ListingView::begin(registered_ids(names@)),
                Err(NamedConceptListError::InsufficientPermissions) => listing@
                    == ListingView::failed(NodeListFailure::InsufficientPermissions),
                Err(NamedConceptListError::InternalError) => listing@ == ListingView::failed(
                    NodeListFailure::InternalError,
                ),
            },
    {
        match list_all_nodes(listed) {
            Ok(names) => Listing::begin(&names),
            Err(e) => Listing::failed(e),
        }
    }
}

/// A wait without a pending termination request and with an undisturbed
/// sleep ends with a tick, however short the cycle.
pub proof fn lemma_undisturbed_wait_ticks<S: Service>()
    ensures
        Node::<S>::spec_woke(Sleep::Elapsed, false) == NodeEvent::Tick,
{
}

} // verus!
