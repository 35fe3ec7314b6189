//! The removal of what a dead node left behind.
//!
//! Removing is a sequence of steps on the monitoring and the storage that
//! the caller performs. After every step the caller reports what came
//! back, and [`Cleanup::next_action`] says what to do next. Only the
//! process that got the dead node's cleaner removes anything.

use crate::backend::{
    MonitoringCreateCleanerError, NamedConceptListError, NamedConceptPathHintRemoveError,
    NamedConceptRemoveError,
};
use crate::details::{details_path, monitoring_path, Config, NodeDetails};
use crate::failure::NodeCleanupFailure;
use crate::file_name::file_name_bytes;
use crate::node_id::NodeId;
use crate::node_state::{DeadNodeView, NodeView};
use iceoryx2_bb_system_types::file_name::FileName;
use vstd::prelude::*;

verus! {

/// Where a removal stands.
#[derive(Debug, Clone, Copy, PartialEq, Eq, Structural)]
pub enum CleanupPhase {
    /// The cleaner of the dead node is asked for.
    Cleaner,
    /// The artifacts in the node's directory of details are listed.
    Listing,
    /// The listed artifacts are removed one by one.
    Removing,
    /// The emptied directory of details is removed.
    Directory,
    /// The removal ended.
    Done,
}

/// What the caller has to do next.
#[derive(Debug)]
pub enum CleanupAction {
    /// Acquire the cleaner registered under the node's file name in the
    /// monitoring directory, and keep it until the removal is done.
    AcquireCleaner,
    /// List the artifacts in the node's directory of details.
    ListStorages,
    /// Remove the artifact of this name from the directory of details.
    RemoveStorage(FileName),
    /// Remove the directory of details itself.
    RemoveDirectory,
    /// Nothing more: the removal ended with this result. `Ok(true)` says
    /// that this caller removed the node's resources, `Ok(false)` that
    /// another process has done so or is doing so.
    Finish(Result<bool, NodeCleanupFailure>),
}

/// An action as plain values.
pub enum CleanupActionView {
    AcquireCleaner,
    ListStorages,
    RemoveStorage(Seq<u8>),
    RemoveDirectory,
    Finish(Result<bool, NodeCleanupFailure>),
}

impl View for CleanupAction {
    type V = CleanupActionView;

    open spec fn view(&self) -> CleanupActionView {
        match self {
            CleanupAction::AcquireCleaner => CleanupActionView::AcquireCleaner,
            CleanupAction::ListStorages => CleanupActionView::ListStorages,
            CleanupAction::RemoveStorage(name) => CleanupActionView::RemoveStorage(
                file_name_bytes(*name),
            ),
            CleanupAction::RemoveDirectory => CleanupActionView::RemoveDirectory,
            CleanupAction::Finish(result) => CleanupActionView::Finish(*result),
        }
    }
}

/// A removal as plain values.
pub struct CleanupView {
    pub phase: CleanupPhase,
    /// Whether the dead node's details were readable.
    pub has_details: bool,
    /// The names of the listed artifacts.
    pub storages: Seq<Seq<u8>>,
    /// How many of them are removed.
    pub removed: nat,
    /// The result, once the removal is done.
    pub result: Result<bool, NodeCleanupFailure>,
}

/// What the caller reports back.
pub enum CleanupEvent {
    Cleaner(Result<(), MonitoringCreateCleanerError>),
    Listed(Result<Seq<Seq<u8>>, NamedConceptListError>),
    Removed(Result<bool, NamedConceptRemoveError>),
    DirectoryRemoved(Result<(), NamedConceptPathHintRemoveError>),
}

/// The names that a list of file names holds.
pub open spec fn names_of(names: Seq<FileName>) -> Seq<Seq<u8>> {
    names.map_values(|name: FileName| file_name_bytes(name))
}

impl CleanupView {
    /// What holds of every removal: artifacts are listed and removed only
    /// for a node with readable details, while artifacts are removed one
    /// of them is still there, and the directory is removed after all of
    /// them.
    pub open spec fn wf(self) -> bool {
        &&& self.removed <= self.storages.len()
        &&& self.phase == CleanupPhase::Removing ==> self.removed < self.storages.len()
        &&& self.phase == CleanupPhase::Directory ==> self.removed == self.storages.len()
        &&& (self.phase == CleanupPhase::Listing || self.phase == CleanupPhase::Removing
            || self.phase == CleanupPhase::Directory) ==> self.has_details
    }

    /// The removal of a dead node as it begins.
    pub open spec fn begin(has_details: bool) -> CleanupView {
        CleanupView {
            phase: CleanupPhase::Cleaner,
            has_details,
            storages: Seq::empty(),
            removed: 0,
            result: Ok(false),
        }
    }

    /// The removal of a node's own resources: nobody else may remove
    /// them, so no cleaner is asked for.
    pub open spec fn begin_removal() -> CleanupView {
        CleanupView {
            phase: CleanupPhase::Listing,
            has_details: true,
            storages: Seq::empty(),
            removed: 0,
            result: Ok(false),
        }
    }

    pub open spec fn finished(self, result: Result<bool, NodeCleanupFailure>) -> CleanupView {
        CleanupView { phase: CleanupPhase::Done, result, ..self }
    }

    /// What the caller has to do next.
    pub open spec fn next_action(self) -> CleanupActionView {
        match self.phase {
            CleanupPhase::Cleaner => CleanupActionView::AcquireCleaner,
            CleanupPhase::Listing => CleanupActionView::ListStorages,
            CleanupPhase::Removing => CleanupActionView::RemoveStorage(
                self.storages[self.removed as int],
            ),
            CleanupPhase::Directory => CleanupActionView::RemoveDirectory,
            CleanupPhase::Done => CleanupActionView::Finish(self.result),
        }
    }

    /// The removal after the monitoring answered the request for the
    /// cleaner. A refusal because another process owns the cleaner, or
    /// because nothing is registered any more, ends the removal without a
    /// failure and without anything removed.
    pub open spec fn after_cleaner(
        self,
        acquired: Result<(), MonitoringCreateCleanerError>,
    ) -> CleanupView {
        match acquired {
            Ok(_) => if self.has_details {
                CleanupView { phase: CleanupPhase::Listing, ..self }
            } else {
                self.finished(Ok(true))
            },
            Err(MonitoringCreateCleanerError::AlreadyOwnedByAnotherInstance) => self.finished(
                Ok(false),
            ),
            Err(MonitoringCreateCleanerError::DoesNotExist) => self.finished(Ok(false)),
            Err(MonitoringCreateCleanerError::Interrupt) => self.finished(
                Err(NodeCleanupFailure::Interrupt),
            ),
            Err(_) => self.finished(Err(NodeCleanupFailure::InternalError)),
        }
    }

    pub open spec fn after_last_storage(self) -> CleanupView {
        if self.removed < self.storages.len() {
            CleanupView { phase: CleanupPhase::Removing, ..self }
        } else {
            CleanupView { phase: CleanupPhase::Directory, ..self }
        }
    }

    /// The removal after the storage listed the node's artifacts.
    pub open spec fn after_listed(
        self,
        listed: Result<Seq<Seq<u8>>, NamedConceptListError>,
    ) -> CleanupView {
        match listed {
            Ok(names) => CleanupView { storages: names, removed: 0, ..self }.after_last_storage(),
            Err(NamedConceptListError::InsufficientPermissions) => self.finished(
                Err(NodeCleanupFailure::InsufficientPermissions),
            ),
            Err(NamedConceptListError::InternalError) => self.finished(
                Err(NodeCleanupFailure::InternalError),
            ),
        }
    }

    /// The removal after the storage answered the removal of one
    /// artifact. The first artifact that cannot be removed ends the
    /// removal.
    pub open spec fn after_removed(
        self,
        removed: Result<bool, NamedConceptRemoveError>,
    ) -> CleanupView {
        match removed {
            Ok(_) => CleanupView { removed: self.removed + 1, ..self }.after_last_storage(),
            Err(NamedConceptRemoveError::InsufficientPermissions) => self.finished(
                Err(NodeCleanupFailure::InsufficientPermissions),
            ),
            Err(NamedConceptRemoveError::InternalError) => self.finished(
                Err(NodeCleanupFailure::InternalError),
            ),
        }
    }

    /// The removal after the storage answered the removal of the
    /// directory of details.
    pub open spec fn after_directory_removed(
        self,
        removed: Result<(), NamedConceptPathHintRemoveError>,
    ) -> CleanupView {
        match removed {
            Ok(_) => self.finished(Ok(true)),
            Err(NamedConceptPathHintRemoveError::InsufficientPermissions) => self.finished(
                Err(NodeCleanupFailure::InsufficientPermissions),
            ),
            Err(NamedConceptPathHintRemoveError::InternalError) => self.finished(
                Err(NodeCleanupFailure::InternalError),
            ),
        }
    }

    /// Whether `event` answers the action that is due. The monitoring
    /// never reports a dead node as still alive.
    pub open spec fn accepts(self, event: CleanupEvent) -> bool {
        match event {
            CleanupEvent::Cleaner(acquired) => self.phase == CleanupPhase::Cleaner && acquired
                != Err::<(), MonitoringCreateCleanerError>(
                MonitoringCreateCleanerError::InstanceStillAlive,
            ),
            CleanupEvent::Listed(_) => self.phase == CleanupPhase::Listing,
            CleanupEvent::Removed(_) => self.phase == CleanupPhase::Removing,
            CleanupEvent::DirectoryRemoved(_) => self.phase == CleanupPhase::Directory,
        }
    }

    /// The removal after `event`.
    pub open spec fn after(self, event: CleanupEvent) -> CleanupView {
        match event {
            CleanupEvent::Cleaner(acquired) => self.after_cleaner(acquired),
            CleanupEvent::Listed(listed) => self.after_listed(listed),
            CleanupEvent::Removed(removed) => self.after_removed(removed),
            CleanupEvent::DirectoryRemoved(removed) => self.after_directory_removed(removed),
        }
    }

    /// Whether `events` can be reported in this order.
    pub open spec fn accepts_all(self, events: Seq<CleanupEvent>) -> bool
        decreases events.len(),
    {
        if events.len() == 0 {
            true
        } else {
            self.accepts(events[0]) && self.after(events[0]).accepts_all(events.drop_first())
        }
    }

    /// The removal after all of `events`.
    pub open spec fn after_all(self, events: Seq<CleanupEvent>) -> CleanupView
        decreases events.len(),
    {
        if events.len() == 0 {
            self
        } else {
            self.after(events[0]).after_all(events.drop_first())
        }
    }

    /// Whether `event` reports that the cleaner was acquired.
    pub open spec fn is_cleaner_acquired(event: CleanupEvent) -> bool {
        event matches CleanupEvent::Cleaner(Ok(_))
    }

    /// Whether the removal ended with the node's resources removed by
    /// this caller.
    pub open spec fn has_reaped(self) -> bool {
        self.phase == CleanupPhase::Done && self.result == Ok::<bool, NodeCleanupFailure>(true)
    }
}

/// The removal of a dead node's resources.
#[derive(Debug)]
pub struct Cleanup {
    monitor_name: FileName,
    monitoring_path: Vec<u8>,
    details_path: Option<Vec<u8>>,
    phase: CleanupPhase,
    storages: Vec<FileName>,
    removed: usize,
    result: Result<bool, NodeCleanupFailure>,
}

impl View for Cleanup {
    type V = CleanupView;

    closed spec fn view(&self) -> CleanupView {
        CleanupView {
            phase: self.phase,
            has_details: self.details_path.is_some(),
            storages: names_of(self.storages@),
            removed: self.removed as nat,
            result: self.result,
        }
    }
}

impl Cleanup {
    /// The name under which the node is registered.
    pub closed spec fn spec_monitor_name(&self) -> Seq<u8> {
        file_name_bytes(self.monitor_name)
    }

    /// The monitoring directory in which the node is registered.
    pub closed spec fn spec_monitoring_path(&self) -> Seq<u8> {
        self.monitoring_path@
    }

    /// The node's directory of details, if its details were readable.
    pub closed spec fn spec_details_path(&self) -> Option<Seq<u8>> {
        match self.details_path {
            Some(path) => Some(path@),
            None => None,
        }
    }

    /// Where the removal stands.
    pub fn phase(&self) -> (phase: CleanupPhase)
        ensures
            phase == self@.phase,
    {
        self.phase
    }

    /// The name under which the node is registered. The cleaner is asked
    /// for under this name.
    pub fn monitor_name(&self) -> (name: FileName)
        ensures
            file_name_bytes(name) == self.spec_monitor_name(),
    {
        self.monitor_name
    }

    /// The monitoring directory in which the cleaner is asked for.
    pub fn monitoring_path(&self) -> (path: &Vec<u8>)
        ensures
            path@ == self.spec_monitoring_path(),
    {
        &self.monitoring_path
    }

    /// The directory whose artifacts are listed and removed, and which is
    /// removed at the end.
    pub fn details_path(&self) -> (path: &Option<Vec<u8>>)
        ensures
            path.is_some() == self@.has_details,
            path matches Some(p) ==> self.spec_details_path() == Some(p@),
    {
        &self.details_path
    }

    /// What the caller has to do next.
    pub fn next_action(&self) -> (action: CleanupAction)
        requires
            self@.wf(),
        ensures
            action@ == self@.next_action(),
    {
        match self.phase {
            CleanupPhase::Cleaner => CleanupAction::AcquireCleaner,
            CleanupPhase::Listing => CleanupAction::ListStorages,
            CleanupPhase::Removing => CleanupAction::RemoveStorage(self.storages[self.removed]),
            CleanupPhase::Directory => CleanupAction::RemoveDirectory,
            CleanupPhase::Done => CleanupAction::Finish(self.result),
        }
    }

    /// Takes the monitoring's answer to the request for the cleaner.
    pub fn acquire_cleaner(&mut self, acquired: Result<(), MonitoringCreateCleanerError>)
        requires
            old(self)@.wf(),
            old(self)@.accepts(CleanupEvent::Cleaner(acquired)),
        ensures
            final(self)@ == old(self)@.after_cleaner(acquired),
            final(self)@.wf(),
            final(self).spec_monitor_name() == old(self).spec_monitor_name(),
            final(self).spec_monitoring_path() == old(self).spec_monitoring_path(),
            final(self).spec_details_path() == old(self).spec_details_path(),
    {
        match acquired {
            Ok(_) => {
                if self.details_path.is_some() {
                    self.phase = CleanupPhase::Listing;
                } else {
                    self.finish(Ok(true));
                }
            },
            Err(MonitoringCreateCleanerError::AlreadyOwnedByAnotherInstance) => {
                self.finish(Ok(false));
            },
            Err(MonitoringCreateCleanerError::DoesNotExist) => {
                self.finish(Ok(false));
            },
            Err(MonitoringCreateCleanerError::Interrupt) => {
                self.finish(Err(NodeCleanupFailure::Interrupt));
            },
            Err(_) => {
                self.finish(Err(NodeCleanupFailure::InternalError));
            },
        }
    }

    /// Takes the storage's list of the artifacts in the node's directory
    /// of details.
    pub fn acquire_all_node_detail_storages(
        &mut self,
        listed: Result<Vec<FileName>, NamedConceptListError>,
    )
        requires
            old(self)@.wf(),
            old(self)@.phase == CleanupPhase::Listing,
        ensures
            final(self)@ == old(self)@.after_listed(
                match listed {
                    Ok(names) => Ok(names_of(names@)),
                    Err(e) => Err(e),
                },
            ),
            final(self)@.wf(),
            final(self).spec_monitor_name() == old(self).spec_monitor_name(),
            final(self).spec_monitoring_path() == old(self).spec_monitoring_path(),
            final(self).spec_details_path() == old(self).spec_details_path(),
    {
        match listed {
            Ok(names) => {
                self.storages = names;
                self.removed = 0;
                self.after_last_storage();
            },
            Err(NamedConceptListError::InsufficientPermissions) => {
                self.finish(Err(NodeCleanupFailure::InsufficientPermissions));
            },
            Err(NamedConceptListError::InternalError) => {
                self.finish(Err(NodeCleanupFailure::InternalError));
            },
        }
    }

    /// Takes the storage's answer to the removal of the artifact that was
    /// due. Missing permissions are reported as such; an internal error
    /// of the storage is reported as an internal error.
    pub fn remove_detail_storages(&mut self, removed: Result<bool, NamedConceptRemoveError>)
        requires
            old(self)@.wf(),
            old(self)@.phase == CleanupPhase::Removing,
        ensures
            final(self)@ == old(self)@.after_removed(removed),
            final(self)@.wf(),
            final(self).spec_monitor_name() == old(self).spec_monitor_name(),
            final(self).spec_monitoring_path() == old(self).spec_monitoring_path(),
            final(self).spec_details_path() == old(self).spec_details_path(),
    {
        match removed {
            Ok(_) => {
                assert(self.removed < self.storages.len());
                self.removed = self.removed + 1;
                self.after_last_storage();
            },
            Err(NamedConceptRemoveError::InsufficientPermissions) => {
                self.finish(Err(NodeCleanupFailure::InsufficientPermissions));
            },
            Err(NamedConceptRemoveError::InternalError) => {
                self.finish(Err(NodeCleanupFailure::InternalError));
            },
        }
    }

    /// Takes the storage's answer to the removal of the directory of
    /// details.
    pub fn remove_node_details_directory(
        &mut self,
        removed: Result<(), NamedConceptPathHintRemoveError>,
    )
        requires
            old(self)@.wf(),
            old(self)@.phase == CleanupPhase::Directory,
        ensures
            final(self)@ == old(self)@.after_directory_removed(removed),
            final(self)@.wf(),
            final(self).spec_monitor_name() == old(self).spec_monitor_name(),
            final(self).spec_monitoring_path() == old(self).spec_monitoring_path(),
            final(self).spec_details_path() == old(self).spec_details_path(),
    {
        match removed {
            Ok(_) => {
                self.finish(Ok(true));
            },
            Err(NamedConceptPathHintRemoveError::InsufficientPermissions) => {
                self.finish(Err(NodeCleanupFailure::InsufficientPermissions));
            },
            Err(NamedConceptPathHintRemoveError::InternalError) => {
                self.finish(Err(NodeCleanupFailure::InternalError));
            },
        }
    }

    fn finish(&mut self, result: Result<bool, NodeCleanupFailure>)
        requires
            old(self)@.removed <= old(self)@.storages.len(),
        ensures
            final(self)@ == old(self)@.finished(result),
            final(self)@.wf(),
            final(self).spec_monitor_name() == old(self).spec_monitor_name(),
            final(self).spec_monitoring_path() == old(self).spec_monitoring_path(),
            final(self).spec_details_path() == old(self).spec_details_path(),
    {
        self.phase = CleanupPhase::Done;
        self.result = result;
    }

    fn after_last_storage(&mut self)
        requires
            old(self)@.removed <= old(self)@.storages.len(),
            old(self)@.has_details,
        ensures
            final(self)@ == old(self)@.after_last_storage(),
            final(self)@.wf(),
            final(self).spec_monitor_name() == old(self).spec_monitor_name(),
            final(self).spec_monitoring_path() == old(self).spec_monitoring_path(),
            final(self).spec_details_path() == old(self).spec_details_path(),
    {
        if self.removed < self.storages.len() {
            self.phase = CleanupPhase::Removing;
        } else {
            self.phase = CleanupPhase::Directory;
        }
    }
}

/// Begins the removal of the resources of the node `id` itself, whose
/// details are `details`: its artifacts, then its directory of details.
pub fn remove_node(id: NodeId, details: &NodeDetails) -> (removal: Cleanup)
    ensures
        removal@ == CleanupView::begin_removal(),
        removal@.wf(),
        removal.spec_monitor_name() == id.spec_file_name(),
        removal.spec_monitoring_path() == monitoring_path(details@.config),
        removal.spec_details_path() == Some(details_path(details@.config, id.spec_file_name())),
{
    let removal = Cleanup {
        monitor_name: id.as_file_name(),
        monitoring_path: details.config().node_monitoring_path(),
        details_path: Some(details.config().node_details_path(&id)),
        phase: CleanupPhase::Listing,
        storages: Vec::new(),
        removed: 0,
        result: Ok(false),
    };
    assert(removal@.storages =~= Seq::<Seq<u8>>::empty());
    removal
}

impl DeadNodeView {
    /// Begins the removal of all that the dead node left behind.
    ///
    /// The node's own configuration says where its registrations are;
    /// where its details could not be read, `global_config` does.
    pub fn remove_stale_resources(self, global_config: &Config) -> (cleanup: Cleanup)
        ensures
            cleanup@ == CleanupView::begin(self.spec_details().is_some()),
            cleanup@.wf(),
            cleanup.spec_monitor_name() == self.spec_id().spec_file_name(),
            match self.spec_details() {
                Some(details) => {
                    &&& cleanup.spec_monitoring_path() == monitoring_path(details@.config)
                    &&& cleanup.spec_details_path() == Some(
                        details_path(details@.config, self.spec_id().spec_file_name()),
                    )
                },
                None => {
                    &&& cleanup.spec_monitoring_path() == monitoring_path(global_config@)
                    &&& cleanup.spec_details_path().is_none()
                },
            },
    {
        let id = *self.id();
        let monitor_name = id.as_file_name();
        let (monitoring_path, details_path) = match self.details() {
            Some(details) => (
                details.config().node_monitoring_path(),
                Some(details.config().node_details_path(&id)),
            ),
            None => (global_config.node_monitoring_path(), None),
        };
        let cleanup = Cleanup {
            monitor_name,
            monitoring_path,
            details_path,
            phase: CleanupPhase::Cleaner,
            storages: Vec::new(),
            removed: 0,
            result: Ok(false),
        };
        assert(cleanup@.storages =~= Seq::<Seq<u8>>::empty());
        cleanup
    }
}

/// A removal stays well-formed whatever is reported.
pub proof fn lemma_cleanup_stays_well_formed(cleanup: CleanupView, events: Seq<CleanupEvent>)
    requires
        cleanup.wf(),
        cleanup.accepts_all(events),
    ensures
        cleanup.after_all(events).wf(),
    decreases events.len(),
{
    if events.len() > 0 {
        lemma_cleanup_stays_well_formed(cleanup.after(events[0]), events.drop_first());
    }
}

/// Once a removal is done, nothing more can be reported to it.
pub proof fn lemma_done_is_final(cleanup: CleanupView, events: Seq<CleanupEvent>)
    requires
        cleanup.phase == CleanupPhase::Done,
        cleanup.accepts_all(events),
    ensures
        events.len() == 0,
{
}

/// Only the caller that got the cleaner reaps: a removal of a dead node
/// ends with `Ok(true)` only if the first thing reported to it was that
/// the cleaner was acquired.
pub proof fn lemma_only_the_cleaner_reaps(has_details: bool, events: Seq<CleanupEvent>)
    requires
        CleanupView::begin(has_details).accepts_all(events),
        CleanupView::begin(has_details).after_all(events).has_reaped(),
    ensures
        events.len() > 0,
        CleanupView::is_cleaner_acquired(events[0]),
{
    let begin = CleanupView::begin(has_details);
    if events.len() > 0 {
        let first = events[0];
        let rest = events.drop_first();
        if !CleanupView::is_cleaner_acquired(first) {
            assert(first is Cleaner);
            let next = begin.after(first);
            assert(next.phase == CleanupPhase::Done);
            lemma_done_is_final(next, rest);
            assert(next.after_all(rest) == next);
        }
    }
}

/// Of two attempts to remove the same dead node, at most one ends with
/// `Ok(true)`, given that the monitoring hands the cleaner to at most one
/// of them.
pub proof fn lemma_at_most_one_reaps(
    has_details: bool,
    one: Seq<CleanupEvent>,
    other: Seq<CleanupEvent>,
)
    requires
        CleanupView::begin(has_details).accepts_all(one),
        CleanupView::begin(has_details).accepts_all(other),
        !(one.len() > 0 && CleanupView::is_cleaner_acquired(one[0]) && other.len() > 0
            && CleanupView::is_cleaner_acquired(other[0])),
    ensures
        !(CleanupView::begin(has_details).after_all(one).has_reaped() && CleanupView::begin(
            has_details,
        ).after_all(other).has_reaped()),
{
    if CleanupView::begin(has_details).after_all(one).has_reaped() && CleanupView::begin(
        has_details,
    ).after_all(other).has_reaped() {
        lemma_only_the_cleaner_reaps(has_details, one);
        lemma_only_the_cleaner_reaps(has_details, other);
    }
}

/// A removal that finds the dead node already reaped, or its cleaner in
/// another process's hands, ends at once with `Ok(false)`.
pub proof fn lemma_reaped_node_gives_false(has_details: bool, events: Seq<CleanupEvent>)
    requires
        CleanupView::begin(has_details).accepts_all(events),
        events.len() > 0,
        events[0] == CleanupEvent::Cleaner(Err(MonitoringCreateCleanerError::DoesNotExist))
            || events[0] == CleanupEvent::Cleaner(
            Err(MonitoringCreateCleanerError::AlreadyOwnedByAnotherInstance),
        ),
    ensures
        events.len() == 1,
        CleanupView::begin(has_details).after_all(events).next_action()
            == CleanupActionView::Finish(Ok(false)),
{
    let next = CleanupView::begin(has_details).after(events[0]);
    let rest = events.drop_first();
    lemma_done_is_final(next, rest);
    assert(next.after_all(rest) == next);
}

/// A removal that ends with `Ok(true)` for a node with readable details
/// has removed every listed artifact before the directory.
pub proof fn lemma_reaping_removes_everything(cleanup: CleanupView, event: CleanupEvent)
    requires
        cleanup.wf(),
        cleanup.accepts(event),
        cleanup.has_details,
        !cleanup.has_reaped(),
        cleanup.after(event).has_reaped(),
    ensures
        cleanup.phase == CleanupPhase::Directory,
        cleanup.removed == cleanup.storages.len(),
        event matches CleanupEvent::DirectoryRemoved(Ok(_)),
{
    match event {
        CleanupEvent::Cleaner(acquired) => {},
        CleanupEvent::Listed(listed) => {},
        CleanupEvent::Removed(removed) => {},
        CleanupEvent::DirectoryRemoved(removed) => {},
    }
}

} // verus!
