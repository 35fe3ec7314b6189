//! How a registered node looks to a process that enumerates the fabric.

use crate::backend::State;
use crate::details::{NodeDetails, NodeDetailsView};
use crate::failure::{NodeListFailure, NodeReadStorageFailure};
use crate::node_id::NodeId;
use vstd::prelude::*;

verus! {

/// What can be known of a node: its identifier always, its details only
/// when they could be read.
pub trait NodeView {
    spec fn spec_id(&self) -> NodeId;

    spec fn spec_details(&self) -> Option<NodeDetails>;

    /// The identifier of the node.
    fn id(&self) -> (id: &NodeId)
        ensures
            *id == self.spec_id(),
    ;

    /// The details that the node published, if they were readable.
    fn details(&self) -> (details: &Option<NodeDetails>)
        ensures
            *details == self.spec_details(),
    ;
}

/// Details, where there are any, as plain values.
pub open spec fn shown(details: Option<NodeDetails>) -> Option<NodeDetailsView> {
    match details {
        Some(found) => Some(found@),
        None => None,
    }
}

/// A node whose process is alive.
#[derive(Debug)]
pub struct AliveNodeView {
    id: NodeId,
    details: Option<NodeDetails>,
}

impl Clone for AliveNodeView {
    fn clone(&self) -> (copy: Self)
        ensures
            copy.spec_id() == self.spec_id(),
            shown(copy.spec_details()) == shown(self.spec_details()),
    {
        let details = match &self.details {
            Some(found) => Some(found.clone()),
            None => None,
        };
        AliveNodeView { id: self.id, details }
    }
}

impl NodeView for AliveNodeView {
    closed spec fn spec_id(&self) -> NodeId {
        self.id
    }

    closed spec fn spec_details(&self) -> Option<NodeDetails> {
        self.details
    }

    fn id(&self) -> (id: &NodeId) {
        &self.id
    }

    fn details(&self) -> (details: &Option<NodeDetails>) {
        &self.details
    }
}

/// A node whose process died and left the node's resources behind.
#[derive(Debug)]
pub struct DeadNodeView(pub(crate) AliveNodeView);

impl Clone for DeadNodeView {
    fn clone(&self) -> (copy: Self)
        ensures
            copy.spec_id() == self.spec_id(),
            shown(copy.spec_details()) == shown(self.spec_details()),
    {
        DeadNodeView(self.0.clone())
    }
}

impl NodeView for DeadNodeView {
    closed spec fn spec_id(&self) -> NodeId {
        self.0.id
    }

    closed spec fn spec_details(&self) -> Option<NodeDetails> {
        self.0.details
    }

    fn id(&self) -> (id: &NodeId) {
        self.0.id()
    }

    fn details(&self) -> (details: &Option<NodeDetails>) {
        self.0.details()
    }
}

/// The state in which an enumeration found a node.
#[derive(Debug)]
pub enum NodeState {
    /// The node's process is alive.
    Alive(AliveNodeView),
    /// The node's process died without cleaning up. Whoever finds it may
    /// remove what it left.
    Dead(DeadNodeView),
    /// The process may not find out whether the node is alive.
    Inaccessible(NodeId),
    /// Parts of the node's registration are missing or inconsistent.
    Undefined(NodeId),
}

/// The details that a reading attempt leaves to show: a failed reading
/// shows none.
pub open spec fn readable(details: Result<Option<NodeDetails>, NodeReadStorageFailure>) -> Option<
    NodeDetails,
> {
    match details {
        Ok(found) => found,
        Err(_) => None,
    }
}

impl Clone for NodeState {
    fn clone(&self) -> (copy: Self)
        ensures
            copy.spec_id() == self.spec_id(),
            shown(copy.spec_details()) == shown(self.spec_details()),
            copy is Alive <==> self is Alive,
            copy is Dead <==> self is Dead,
            copy is Inaccessible <==> self is Inaccessible,
            copy is Undefined <==> self is Undefined,
    {
        match self {
            NodeState::Alive(view) => NodeState::Alive(view.clone()),
            NodeState::Dead(view) => NodeState::Dead(view.clone()),
            NodeState::Inaccessible(id) => NodeState::Inaccessible(*id),
            NodeState::Undefined(id) => NodeState::Undefined(*id),
        }
    }
}

impl NodeState {
    /// The details of the node that the state is about, where the state
    /// shows any.
    pub open spec fn spec_details(&self) -> Option<NodeDetails> {
        match self {
            NodeState::Alive(view) => view.spec_details(),
            NodeState::Dead(view) => view.spec_details(),
            NodeState::Inaccessible(_) => None,
            NodeState::Undefined(_) => None,
        }
    }

    /// The identifier of the node that the state is about.
    pub open spec fn spec_id(&self) -> NodeId {
        match self {
            NodeState::Alive(view) => view.spec_id(),
            NodeState::Dead(view) => view.spec_id(),
            NodeState::Inaccessible(id) => *id,
            NodeState::Undefined(id) => *id,
        }
    }

    /// Whether `classified` is how the node `id` is classified when its
    /// details are `details` and the monitoring reported `state`.
    ///
    /// A token that vanished classifies the node as gone, which is no
    /// failure. Missing permissions and internal errors of the monitoring
    /// are states of the node; only an interrupt fails the classification.
    pub open spec fn classifies(
        classified: Result<Option<NodeState>, NodeListFailure>,
        id: NodeId,
        details: Option<NodeDetails>,
        state: Result<State, NodeListFailure>,
    ) -> bool {
        match state {
            Ok(State::DoesNotExist) => classified == Ok::<Option<NodeState>, NodeListFailure>(None),
            Ok(State::Alive) => {
                &&& classified matches Ok(Some(NodeState::Alive(view)))
                &&& view.spec_id() == id
                &&& view.spec_details() == details
            },
            Ok(State::Dead) => {
                &&& classified matches Ok(Some(NodeState::Dead(view)))
                &&& view.spec_id() == id
                &&& view.spec_details() == details
            },
            Err(NodeListFailure::InsufficientPermissions) => classified == Ok::<
                Option<NodeState>,
                NodeListFailure,
            >(Some(NodeState::Inaccessible(id))),
            Err(NodeListFailure::InternalError) => classified == Ok::<
                Option<NodeState>,
                NodeListFailure,
            >(Some(NodeState::Undefined(id))),
            Err(NodeListFailure::Interrupt) => classified == Err::<
                Option<NodeState>,
                NodeListFailure,
            >(NodeListFailure::Interrupt),
        }
    }

    /// Classifies the node `node_id` from what reading its details and
    /// asking for its liveness gave.
    pub fn new(
        node_id: &NodeId,
        details: Result<Option<NodeDetails>, NodeReadStorageFailure>,
        state: Result<State, NodeListFailure>,
    ) -> (classified: Result<Option<NodeState>, NodeListFailure>)
        ensures
            NodeState::classifies(classified, *node_id, readable(details), state),
    {
        let details = match details {
            Ok(found) => found,
            Err(_) => None,
        };
        let node_view = AliveNodeView { id: *node_id, details };
        match state {
            Ok(State::DoesNotExist) => Ok(None),
            Ok(State::Alive) => Ok(Some(NodeState::Alive(node_view))),
            Ok(State::Dead) => Ok(Some(NodeState::Dead(DeadNodeView(node_view)))),
            Err(NodeListFailure::InsufficientPermissions) => Ok(
                Some(NodeState::Inaccessible(*node_id)),
            ),
            Err(NodeListFailure::InternalError) => Ok(Some(NodeState::Undefined(*node_id))),
            Err(e) => Err(e),
        }
    }

    /// The identifier of the node that the state is about.
    pub fn node_id(&self) -> (id: NodeId)
        ensures
            id == self.spec_id(),
    {
        match self {
            NodeState::Alive(view) => *view.id(),
            NodeState::Dead(view) => *view.id(),
            NodeState::Inaccessible(id) => *id,
            NodeState::Undefined(id) => *id,
        }
    }
}

/// A node whose token vanished between the listing and the look at it is
/// passed over: classifying it never fails.
pub proof fn lemma_vanished_node_is_no_failure(
    classified: Result<Option<NodeState>, NodeListFailure>,
    id: NodeId,
    details: Option<NodeDetails>,
)
    requires
        NodeState::classifies(classified, id, details, Ok(State::DoesNotExist)),
    ensures
        classified is Ok,
        classified->Ok_0 is None,
{
}

/// Every state that a classification gives is about the node that was
/// classified, and it is `Alive` exactly if the monitoring said so.
pub proof fn lemma_classification_is_faithful(
    classified: Result<Option<NodeState>, NodeListFailure>,
    id: NodeId,
    details: Option<NodeDetails>,
    state: Result<State, NodeListFailure>,
)
    requires
        NodeState::classifies(classified, id, details, state),
    ensures
        classified matches Ok(Some(found)) ==> found.spec_id() == id,
        (classified matches Ok(Some(found)) && found is Alive) <==> state == Ok::<
            State,
            NodeListFailure,
        >(State::Alive),
        (classified matches Ok(Some(found)) && found is Dead) <==> state == Ok::<
            State,
            NodeListFailure,
        >(State::Dead),
{
}

} // verus!
