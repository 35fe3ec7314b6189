//! The failures that the node's operations report.

use vstd::prelude::*;

verus! {

/// Why a node could not be created.
#[derive(Debug, Copy, Clone, PartialEq, Eq, Structural)]
pub enum NodeCreationFailure {
    /// The process may not create the node's artifacts.
    InsufficientPermissions,
    /// An implementation issue or a wrongly configured system.
    InternalError,
}

impl NodeCreationFailure {
    pub open spec fn spec_to_string(&self) -> Seq<char> {
        match self {
            NodeCreationFailure::InsufficientPermissions => {
                "NodeCreationFailure::InsufficientPermissions"@
            },
            NodeCreationFailure::InternalError => "NodeCreationFailure::InternalError"@,
        }
    }

    /// The failure's name, qualified by its type.
    pub fn to_string(&self) -> (text: String)
        ensures
            text@ == self.spec_to_string(),
    {
        match self {
            NodeCreationFailure::InsufficientPermissions => {
                "NodeCreationFailure::InsufficientPermissions".to_owned()
            },
            NodeCreationFailure::InternalError => "NodeCreationFailure::InternalError".to_owned(),
        }
    }
}

/// Why the nodes of a fabric could not be listed.
#[derive(Debug, Copy, Clone, PartialEq, Eq, Structural)]
pub enum NodeListFailure {
    /// The process may not look at the registrations.
    InsufficientPermissions,
    /// A signal interrupted a blocking call.
    Interrupt,
    /// An implementation issue or a wrongly configured system.
    InternalError,
}

impl NodeListFailure {
    pub open spec fn spec_to_string(&self) -> Seq<char> {
        match self {
            NodeListFailure::InsufficientPermissions => "NodeListFailure::InsufficientPermissions"@,
            NodeListFailure::Interrupt => "NodeListFailure::Interrupt"@,
            NodeListFailure::InternalError => "NodeListFailure::InternalError"@,
        }
    }

    /// The failure's name, qualified by its type.
    pub fn to_string(&self) -> (text: String)
        ensures
            text@ == self.spec_to_string(),
    {
        match self {
            NodeListFailure::InsufficientPermissions => {
                "NodeListFailure::InsufficientPermissions".to_owned()
            },
            NodeListFailure::Interrupt => "NodeListFailure::Interrupt".to_owned(),
            NodeListFailure::InternalError => "NodeListFailure::InternalError".to_owned(),
        }
    }
}

/// Why the stale resources of a dead node could not be removed.
#[derive(Debug, Copy, Clone, PartialEq, Eq, Structural)]
pub enum NodeCleanupFailure {
    /// A signal interrupted a blocking call.
    Interrupt,
    /// An implementation issue or a wrongly configured system.
    InternalError,
    /// The process may not remove the dead node's artifacts.
    InsufficientPermissions,
}

impl NodeCleanupFailure {
    pub open spec fn spec_to_string(&self) -> Seq<char> {
        match self {
            NodeCleanupFailure::Interrupt => "NodeCleanupFailure::Interrupt"@,
            NodeCleanupFailure::InternalError => "NodeCleanupFailure::InternalError"@,
            NodeCleanupFailure::InsufficientPermissions => {
                "NodeCleanupFailure::InsufficientPermissions"@
            },
        }
    }

    /// The failure's name, qualified by its type.
    pub fn to_string(&self) -> (text: String)
        ensures
            text@ == self.spec_to_string(),
    {
        match self {
            NodeCleanupFailure::Interrupt => "NodeCleanupFailure::Interrupt".to_owned(),
            NodeCleanupFailure::InternalError => "NodeCleanupFailure::InternalError".to_owned(),
            NodeCleanupFailure::InsufficientPermissions => {
                "NodeCleanupFailure::InsufficientPermissions".to_owned()
            },
        }
    }
}

/// Why the details that a node published could not be read.
#[derive(Debug, Copy, Clone, PartialEq, Eq, Structural)]
pub enum NodeReadStorageFailure {
    /// The artifact exists and its content could not be read.
    ReadError,
    /// The artifact is reserved and not written yet, or its content does
    /// not decode.
    Corrupted,
    /// An implementation issue or a wrongly configured system.
    InternalError,
}

} // verus!
