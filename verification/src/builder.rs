//! The creation of a node.
//!
//! A node comes into being in steps that the caller performs on the
//! storage and the monitoring: its details are serialized and published as
//! an artifact, then its liveness token is acquired. The artifact comes
//! first, so that a creation that breaks off leaves at most an artifact
//! without a token, which peers reap like the remains of a dead node.

use crate::backend::{
    MonitoringCreateTokenError, SerializeError, StaticStorageCreateError,
    UniqueSystemIdCreationError,
};
use crate::details::{
    details_artifact, details_artifact_name, details_path, details_storage_has_ownership,
    monitoring_path, Config, NodeDetails, NodeName,
};
use crate::failure::NodeCreationFailure;
use crate::file_name::file_name_bytes;
use crate::node::{Node, Service, SharedNode};
use crate::node_id::NodeId;
use iceoryx2_bb_system_types::file_name::FileName;
use vstd::prelude::*;

verus! {

/// Where a creation stands.
#[derive(Debug, Clone, Copy, PartialEq, Eq, Structural)]
pub enum CreationPhase {
    /// The node's details are serialized.
    Serializing,
    /// The artifact of the details is created.
    Storing,
    /// The liveness token is acquired.
    Token,
    /// The creation broke off.
    Failed,
}

/// What the caller has to do next.
#[derive(Debug, Clone, Copy, PartialEq, Eq)]
pub enum CreationAction {
    /// Serialize the node's details.
    SerializeDetails,
    /// Create the artifact of the details with the serialized content.
    /// The artifact belongs to the fabric, not to the handle that creates
    /// it: it stays when the handle goes.
    CreateDetailsStorage,
    /// Acquire the token under the node's file name in the monitoring
    /// directory.
    AcquireToken,
    /// Nothing more: the creation broke off with this failure.
    GiveUp(NodeCreationFailure),
}

/// Collects what a node is created with.
#[derive(Debug)]
pub struct NodeBuilder {
    name: Option<NodeName>,
    config: Option<Config>,
}

impl Default for NodeBuilder {
    /// A builder with nothing chosen.
    fn default() -> (builder: NodeBuilder)
        ensures
            builder.spec_name().is_none(),
            builder.spec_config().is_none(),
    {
        NodeBuilder { name: None, config: None }
    }
}

impl NodeBuilder {
    /// The name that was chosen, if one was.
    pub closed spec fn spec_name(&self) -> Option<Seq<char>> {
        match self.name {
            Some(name) => Some(name@),
            None => None,
        }
    }

    /// The configuration that was chosen, if one was.
    pub closed spec fn spec_config(&self) -> Option<Seq<u8>> {
        match self.config {
            Some(config) => Some(config@),
            None => None,
        }
    }

    /// A builder with nothing chosen.
    pub fn new() -> (builder: NodeBuilder)
        ensures
            builder.spec_name().is_none(),
            builder.spec_config().is_none(),
    {
        NodeBuilder::default()
    }

    /// Chooses the node's name.
    pub fn name(self, value: NodeName) -> (builder: NodeBuilder)
        ensures
            builder.spec_name() == Some(value@),
            builder.spec_config() == self.spec_config(),
    {
        let mut builder = self;
        builder.name = Some(value);
        builder
    }

    /// Chooses the configuration with which the node creates its
    /// entities.
    pub fn config(self, value: &Config) -> (builder: NodeBuilder)
        ensures
            builder.spec_name() == self.spec_name(),
            builder.spec_config() == Some(value@),
    {
        let mut builder = self;
        builder.config = Some(value.clone());
        builder
    }

    /// The name of the node to be: the chosen one, else the empty name.
    pub open spec fn name_of_node(&self) -> Seq<char> {
        match self.spec_name() {
            Some(name) => name,
            None => Seq::empty(),
        }
    }

    /// The configuration of the node to be: the chosen one, else the
    /// process's global one.
    pub open spec fn config_of_node(&self, global_config: Seq<u8>) -> Seq<u8> {
        match self.spec_config() {
            Some(config) => config,
            None => global_config,
        }
    }

    /// Begins the creation of a node with the identifier that was minted
    /// for it. Without an identifier there is no node.
    pub fn create<S: Service>(
        self,
        minted: Result<NodeId, UniqueSystemIdCreationError>,
        global_config: &Config,
    ) -> (creation: Result<NodeCreation<S>, NodeCreationFailure>)
        ensures
            minted is Err ==> creation matches Err(NodeCreationFailure::InternalError),
            minted matches Ok(id) ==> {
                &&& creation matches Ok(begun)
                &&& begun.spec_phase() == CreationPhase::Serializing
                &&& begun.spec_id() == id
                &&& begun.spec_details()@.name == self.name_of_node()
                &&& begun.spec_details()@.config == self.config_of_node(global_config@)
                &&& begun.wf()
            },
    {
        let node_id = match minted {
            Ok(id) => id,
            Err(_) => {
                return Err(NodeCreationFailure::InternalError);
            },
        };
        let monitor_name = node_id.as_file_name();
        let config = match &self.config {
            Some(config) => config.clone(),
            None => global_config.clone(),
        };
        let name = match &self.name {
            Some(name) => name.clone(),
            None => NodeName::empty(),
        };
        let monitoring_path = config.node_monitoring_path();
        let details_path = config.node_details_path(&node_id);
        Ok(
            NodeCreation {
                id: node_id,
                details: NodeDetails::new(name, config),
                monitor_name,
                monitoring_path,
                details_path,
                content: Vec::new(),
                storage: None,
                phase: CreationPhase::Serializing,
                failure: NodeCreationFailure::InternalError,
            },
        )
    }
}

/// The creation of one node.
pub struct NodeCreation<S: Service> {
    id: NodeId,
    details: NodeDetails,
    monitor_name: FileName,
    monitoring_path: Vec<u8>,
    details_path: Vec<u8>,
    content: Vec<u8>,
    storage: Option<S::StaticStorage>,
    phase: CreationPhase,
    failure: NodeCreationFailure,
}

impl<S: Service> NodeCreation<S> {
    pub closed spec fn spec_phase(&self) -> CreationPhase {
        self.phase
    }

    pub closed spec fn spec_id(&self) -> NodeId {
        self.id
    }

    pub closed spec fn spec_details(&self) -> NodeDetails {
        self.details
    }

    /// The serialized details, once they are there.
    pub closed spec fn spec_content(&self) -> Seq<u8> {
        self.content@
    }

    /// The open artifact of the details, once it is created.
    pub closed spec fn spec_storage(&self) -> Option<S::StaticStorage> {
        self.storage
    }

    /// Why the creation broke off, if it did.
    pub closed spec fn spec_failure(&self) -> NodeCreationFailure {
        self.failure
    }

    /// What holds of every creation: where its artifacts go, and that
    /// the token is asked for only after the artifact of the details is
    /// there.
    pub closed spec fn wf(&self) -> bool {
        &&& file_name_bytes(self.monitor_name) == self.id.spec_file_name()
        &&& self.monitoring_path@ == monitoring_path(self.details@.config)
        &&& self.details_path@ == details_path(self.details@.config, self.id.spec_file_name())
        &&& self.phase == CreationPhase::Token <==> self.storage.is_some()
    }

    /// The token is asked for exactly when the artifact of the details
    /// is created and open: a creation that breaks off earlier has no
    /// token to leave behind.
    pub proof fn lemma_token_follows_details(&self)
        requires
            self.wf(),
        ensures
            self.spec_phase() == CreationPhase::Token <==> self.spec_storage().is_some(),
    {
    }

    /// The action that is due in a phase.
    pub open spec fn action_of(phase: CreationPhase, failure: NodeCreationFailure) -> CreationAction {
        match phase {
            CreationPhase::Serializing => CreationAction::SerializeDetails,
            CreationPhase::Storing => CreationAction::CreateDetailsStorage,
            CreationPhase::Token => CreationAction::AcquireToken,
            CreationPhase::Failed => CreationAction::GiveUp(failure),
        }
    }

    /// Where the creation stands.
    pub fn phase(&self) -> (phase: CreationPhase)
        ensures
            phase == self.spec_phase(),
    {
        self.phase
    }

    /// What the caller has to do next.
    pub fn next_action(&self) -> (action: CreationAction)
        ensures
            action == Self::action_of(self.spec_phase(), self.spec_failure()),
    {
        match self.phase {
            CreationPhase::Serializing => CreationAction::SerializeDetails,
            CreationPhase::Storing => CreationAction::CreateDetailsStorage,
            CreationPhase::Token => CreationAction::AcquireToken,
            CreationPhase::Failed => CreationAction::GiveUp(self.failure),
        }
    }

    /// The identifier of the node to be.
    pub fn id(&self) -> (id: &NodeId)
        ensures
            *id == self.spec_id(),
    {
        &self.id
    }

    /// The details that are serialized and published.
    pub fn details(&self) -> (details: &NodeDetails)
        ensures
            *details == self.spec_details(),
    {
        &self.details
    }

    /// The name of the artifact of the details.
    pub fn storage_name(&self) -> (name: FileName)
        ensures
            file_name_bytes(name) == details_artifact_name(),
    {
        details_artifact()
    }

    /// The directory in which the artifact of the details is created.
    pub fn storage_path(&self) -> (path: &Vec<u8>)
        requires
            self.wf(),
        ensures
            path@ == details_path(self.spec_details()@.config, self.spec_id().spec_file_name()),
    {
        &self.details_path
    }

    /// Whether the handle that creates the artifact owns it. It does
    /// not.
    pub fn storage_has_ownership(&self) -> (owned: bool)
        ensures
            !owned,
    {
        details_storage_has_ownership()
    }

    /// The content with which the artifact of the details is created.
    pub fn storage_content(&self) -> (content: &Vec<u8>)
        ensures
            content@ == self.spec_content(),
    {
        &self.content
    }

    /// The name under which the token is acquired.
    pub fn monitor_name(&self) -> (name: FileName)
        requires
            self.wf(),
        ensures
            file_name_bytes(name) == self.spec_id().spec_file_name(),
    {
        self.monitor_name
    }

    /// The monitoring directory in which the token is acquired.
    pub fn monitor_path(&self) -> (path: &Vec<u8>)
        requires
            self.wf(),
        ensures
            path@ == monitoring_path(self.spec_details()@.config),
    {
        &self.monitoring_path
    }

    /// Takes the serialized details.
    pub fn serialized(&mut self, serialized: Result<Vec<u8>, SerializeError>) -> (result: Result<
        (),
        NodeCreationFailure,
    >)
        requires
            old(self).wf(),
            old(self).spec_phase() == CreationPhase::Serializing,
        ensures
            final(self).wf(),
            final(self).spec_id() == old(self).spec_id(),
            final(self).spec_details() == old(self).spec_details(),
            final(self).spec_storage() == old(self).spec_storage(),
            match serialized {
                Ok(content) => {
                    &&& result is Ok
                    &&& final(self).spec_phase() == CreationPhase::Storing
                    &&& final(self).spec_content() == content@
                },
                Err(_) => {
                    &&& result matches Err(NodeCreationFailure::InternalError)
                    &&& final(self).spec_phase() == CreationPhase::Failed
                    &&& final(self).spec_failure() == NodeCreationFailure::InternalError
                },
            },
    {
        match serialized {
            Ok(content) => {
                self.content = content;
                self.phase = CreationPhase::Storing;
                Ok(())
            },
            Err(_) => {
                self.fail(NodeCreationFailure::InternalError);
                Err(NodeCreationFailure::InternalError)
            },
        }
    }

    /// Why a creation breaks off when the artifact of the details cannot
    /// be created.
    pub open spec fn storage_failure(error: StaticStorageCreateError) -> NodeCreationFailure {
        if error == StaticStorageCreateError::InsufficientPermissions {
            NodeCreationFailure::InsufficientPermissions
        } else {
            NodeCreationFailure::InternalError
        }
    }

    /// Takes the storage's answer to the creation of the artifact of the
    /// details. An identifier is minted once, so the artifact cannot have
    /// been there already.
    pub fn create_node_details_storage(
        &mut self,
        created: Result<S::StaticStorage, StaticStorageCreateError>,
    ) -> (result: Result<(), NodeCreationFailure>)
        requires
            old(self).wf(),
            old(self).spec_phase() == CreationPhase::Storing,
            !(created matches Err(StaticStorageCreateError::AlreadyExists)),
        ensures
            final(self).wf(),
            final(self).spec_id() == old(self).spec_id(),
            final(self).spec_details() == old(self).spec_details(),
            final(self).spec_content() == old(self).spec_content(),
            match created {
                Ok(storage) => {
                    &&& result is Ok
                    &&& final(self).spec_phase() == CreationPhase::Token
                    &&& final(self).spec_storage() == Some(storage)
                },
                Err(error) => {
                    &&& result == Err::<(), NodeCreationFailure>(Self::storage_failure(error))
                    &&& final(self).spec_phase() == CreationPhase::Failed
                    &&& final(self).spec_failure() == Self::storage_failure(error)
                },
            },
    {
        match created {
            Ok(storage) => {
                self.storage = Some(storage);
                self.phase = CreationPhase::Token;
                Ok(())
            },
            Err(StaticStorageCreateError::InsufficientPermissions) => {
                self.fail(NodeCreationFailure::InsufficientPermissions);
                Err(NodeCreationFailure::InsufficientPermissions)
            },
            Err(_) => {
                self.fail(NodeCreationFailure::InternalError);
                Err(NodeCreationFailure::InternalError)
            },
        }
    }

    /// Why a creation breaks off when the token cannot be acquired.
    pub open spec fn token_failure(error: MonitoringCreateTokenError) -> NodeCreationFailure {
        if error == MonitoringCreateTokenError::InsufficientPermissions {
            NodeCreationFailure::InsufficientPermissions
        } else {
            NodeCreationFailure::InternalError
        }
    }

    /// Takes the monitoring's answer to the request for the token and
    /// ends the creation: with the node, which then holds its token, or
    /// with the failure. No other node has the same identifier, so the
    /// token cannot have been there already.
    pub fn create_token(self, acquired: Result<S::Token, MonitoringCreateTokenError>) -> (node: Result<
        Node<S>,
        NodeCreationFailure,
    >)
        requires
            self.wf(),
            self.spec_phase() == CreationPhase::Token,
            !(acquired matches Err(MonitoringCreateTokenError::AlreadyExists)),
        ensures
            match acquired {
                Ok(token) => {
                    &&& node matches Ok(created)
                    &&& created.spec_shared().spec_id() == self.spec_id()
                    &&& created.spec_shared().spec_details() == self.spec_details()
                    &&& created.spec_shared().spec_token() == Some(token)
                    &&& Some(created.spec_shared().spec_storage()) == self.spec_storage()
                    &&& created.spec_shared().spec_services().wf()
                    &&& created.spec_shared().spec_services()@ == Map::<
                        Seq<char>,
                        (S::Handle, nat),
                    >::empty()
                },
                Err(error) => node matches Err(failure) && failure == Self::token_failure(error),
            },
    {
        match acquired {
            Ok(token) => {
                let storage = self.storage.unwrap();
                Ok(Node::from_shared(SharedNode::new(self.id, self.details, token, storage)))
            },
            Err(MonitoringCreateTokenError::InsufficientPermissions) => Err(
                NodeCreationFailure::InsufficientPermissions,
            ),
            Err(_) => Err(NodeCreationFailure::InternalError),
        }
    }

    fn fail(&mut self, failure: NodeCreationFailure)
        requires
            old(self).wf(),
            old(self).spec_phase() != CreationPhase::Token,
        ensures
            final(self).wf(),
            final(self).spec_phase() == CreationPhase::Failed,
            final(self).spec_failure() == failure,
            final(self).spec_id() == old(self).spec_id(),
            final(self).spec_details() == old(self).spec_details(),
            final(self).spec_content() == old(self).spec_content(),
            final(self).spec_storage() == old(self).spec_storage(),
    {
        self.phase = CreationPhase::Failed;
        self.failure = failure;
    }
}

} // verus!
