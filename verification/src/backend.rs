//! What the capabilities below the node report back: the monitoring of
//! liveness tokens, the storage of static artifacts, the codec of details
//! and the clock. The node's rules are stated over these reports.

use vstd::prelude::*;

verus! {

/// The state of a monitored process.
#[derive(Debug, Clone, Copy, PartialEq, Eq, Structural)]
pub enum State {
    /// The process holds its token.
    Alive,
    /// The process died and left its token behind.
    Dead,
    /// No token is registered under the name.
    DoesNotExist,
}

/// Why a liveness token could not be acquired.
#[derive(Debug, Clone, Copy, PartialEq, Eq, Structural)]
pub enum MonitoringCreateTokenError {
    InsufficientPermissions,
    AlreadyExists,
    InternalError,
}

/// Why the cleaner of a dead process could not be acquired.
#[derive(Debug, Clone, Copy, PartialEq, Eq, Structural)]
pub enum MonitoringCreateCleanerError {
    Interrupt,
    InstanceStillAlive,
    AlreadyOwnedByAnotherInstance,
    DoesNotExist,
    InternalError,
}

/// Why a monitor of a token could not be built.
#[derive(Debug, Clone, Copy, PartialEq, Eq, Structural)]
pub enum MonitoringCreateMonitorError {
    InsufficientPermissions,
    Interrupt,
    InternalError,
}

/// Why a monitor could not tell the state of its token.
#[derive(Debug, Clone, Copy, PartialEq, Eq, Structural)]
pub enum MonitoringStateError {
    Interrupt,
    InternalError,
}

/// Why the names under a configuration could not be listed.
#[derive(Debug, Clone, Copy, PartialEq, Eq, Structural)]
pub enum NamedConceptListError {
    InsufficientPermissions,
    InternalError,
}

/// Why a named artifact could not be removed.
#[derive(Debug, Clone, Copy, PartialEq, Eq, Structural)]
pub enum NamedConceptRemoveError {
    InsufficientPermissions,
    InternalError,
}

/// Why a directory of artifacts could not be removed.
#[derive(Debug, Clone, Copy, PartialEq, Eq, Structural)]
pub enum NamedConceptPathHintRemoveError {
    InsufficientPermissions,
    InternalError,
}

/// Why a static artifact could not be created.
#[derive(Debug, Clone, Copy, PartialEq, Eq, Structural)]
pub enum StaticStorageCreateError {
    AlreadyExists,
    Creation,
    Write,
    InsufficientPermissions,
    InternalError,
}

/// Why a static artifact could not be opened.
#[derive(Debug, Clone, Copy, PartialEq, Eq, Structural)]
pub enum StaticStorageOpenError {
    DoesNotExist,
    Read,
    /// The artifact is reserved and its content is not written yet.
    IsLocked,
    InternalError,
}

/// Why the content of an opened static artifact could not be read.
#[derive(Debug, Clone, Copy, PartialEq, Eq, Structural)]
pub enum StaticStorageReadError {
    BufferTooSmall,
    ReadError,
    StaticStorageWasModified,
    CreationNotComplete,
}

/// Why details could not be serialized.
#[derive(Debug, Clone, Copy, PartialEq, Eq, Structural)]
pub enum SerializeError {
    InternalError,
}

/// Why bytes could not be deserialized into details.
#[derive(Debug, Clone, Copy, PartialEq, Eq, Structural)]
pub enum DeserializeError {
    InternalError,
}

/// Why no identifier could be minted.
#[derive(Debug, Clone, Copy, PartialEq, Eq, Structural)]
pub enum UniqueSystemIdCreationError {
    FailedToAcquireTime,
}

/// How a sleep of one cycle ended.
#[derive(Debug, Clone, Copy, PartialEq, Eq, Structural)]
pub enum Sleep {
    /// The whole cycle time passed.
    Elapsed,
    /// A signal woke the sleeper early.
    InterruptedBySignal,
    /// The clock refused the sleep.
    Failed,
}

} // verus!
