use iceoryx2_bb_container::semantic_string::SemanticString;
use iceoryx2_node::backend::{
    DeserializeError, MonitoringCreateMonitorError, MonitoringStateError, NamedConceptListError,
    Sleep, State, StaticStorageOpenError, StaticStorageReadError,
};
use iceoryx2_node::cleanup::{CleanupAction, CleanupPhase};
use iceoryx2_node::details::{details_storage_has_ownership, Config, NodeDetails, NodeName};
use iceoryx2_node::failure::{NodeListFailure, NodeReadStorageFailure};
use iceoryx2_node::listing::ListAction;
use iceoryx2_node::node::{LivenessQuery, Node, NodeEvent, Service, SharedNode, StoredDetails, WaitStep};
use iceoryx2_node::node_id::NodeId;
use std::time::Duration;

#[derive(Debug)]
struct Local;

impl Service for Local {
    type Token = &'static str;
    type StaticStorage = u16;
    type Handle = u32;
}

fn node(value: u128) -> Node<Local> {
    let details = NodeDetails::new(NodeName::new("a"), Config::new(b"/tmp/fabric".to_vec()));
    Node::from_shared(SharedNode::new(NodeId::new(value), details, "token", 3))
}

#[test]
fn a_node_knows_its_name_configuration_and_identifier() {
    let node = node(17);
    assert_eq!(node.name().as_str(), "a");
    assert_eq!(node.config().root(), &b"/tmp/fabric".to_vec());
    assert_eq!(*node.id(), NodeId::new(17));
    assert_eq!(*node.shared().id(), NodeId::new(17));
    assert_eq!(node.shared().config().root(), &b"/tmp/fabric".to_vec());
    assert_eq!(node.shared().registered_services().refcount("x"), 0);
}

#[test]
fn a_pending_termination_request_is_reported_without_sleeping() {
    let step = node(1).wait(Duration::from_secs(10), true);
    assert!(matches!(step, WaitStep::Return(NodeEvent::TerminationRequest)));
}

#[test]
fn a_wait_sleeps_for_the_cycle_time() {
    match node(1).wait(Duration::from_millis(1500), false) {
        WaitStep::Sleep(time) => assert_eq!(time, Duration::from_millis(1500)),
        other => panic!("unexpected {:?}", other),
    }
}

#[test]
fn a_wait_of_no_time_ticks() {
    let node = node(1);
    match node.wait(Duration::ZERO, false) {
        WaitStep::Sleep(time) => assert_eq!(time, Duration::ZERO),
        other => panic!("unexpected {:?}", other),
    }
    assert_eq!(node.woke(Sleep::Elapsed, false), NodeEvent::Tick);
}

#[test]
fn signal_during_wait() {
    let node = node(1);
    assert!(matches!(node.wait(Duration::from_secs(10), false), WaitStep::Sleep(_)));
    assert_eq!(node.woke(Sleep::InterruptedBySignal, false), NodeEvent::InterruptSignal);
    assert_eq!(node.woke(Sleep::InterruptedBySignal, true), NodeEvent::InterruptSignal);
    assert!(matches!(
        node.wait(Duration::from_secs(10), true),
        WaitStep::Return(NodeEvent::TerminationRequest)
    ));
}

#[test]
fn a_termination_request_during_the_sleep_goes_before_the_tick() {
    assert_eq!(node(1).woke(Sleep::Elapsed, true), NodeEvent::TerminationRequest);
}

#[test]
fn own_nodes_are_alive_without_asking() {
    let id = NodeId::new(55);
    assert!(matches!(
        Node::<Local>::get_node_state(4242, 4242, &id),
        LivenessQuery::Known(State::Alive)
    ));
}

#[test]
fn the_monitor_is_asked_about_nodes_of_other_processes() {
    let id = NodeId::new(55);
    match Node::<Local>::get_node_state(1, 4242, &id) {
        LivenessQuery::AskMonitor(name) => assert_eq!(name.as_bytes(), b"55"),
        other => panic!("unexpected {:?}", other),
    }
}

#[test]
fn the_state_of_the_monitor_is_handed_on() {
    for state in [State::Alive, State::Dead, State::DoesNotExist] {
        assert_eq!(Node::<Local>::state_from_monitor(Ok(state)), Ok(state));
        assert_eq!(Node::<Local>::monitored_state(Ok(Ok(state))), Ok(state));
    }
}

#[test]
fn failures_of_the_monitor_are_mapped() {
    assert_eq!(
        Node::<Local>::state_from_monitor(Err(MonitoringStateError::Interrupt)),
        Err(NodeListFailure::Interrupt)
    );
    assert_eq!(
        Node::<Local>::state_from_monitor(Err(MonitoringStateError::InternalError)),
        Err(NodeListFailure::InternalError)
    );
    assert_eq!(
        Node::<Local>::monitored_state(Ok(Err(MonitoringStateError::Interrupt))),
        Err(NodeListFailure::Interrupt)
    );
    assert_eq!(
        Node::<Local>::monitored_state(Err(MonitoringCreateMonitorError::InsufficientPermissions)),
        Err(NodeListFailure::InsufficientPermissions)
    );
    assert_eq!(
        Node::<Local>::monitored_state(Err(MonitoringCreateMonitorError::Interrupt)),
        Err(NodeListFailure::Interrupt)
    );
    assert_eq!(
        Node::<Local>::monitored_state(Err(MonitoringCreateMonitorError::InternalError)),
        Err(NodeListFailure::InternalError)
    );
}

#[test]
fn opening_the_details_is_mapped() {
    assert_eq!(Node::<Local>::open_node_storage(Ok(9u8)), Ok(Some(9u8)));
    assert_eq!(
        Node::<Local>::open_node_storage::<u8>(Err(StaticStorageOpenError::DoesNotExist)),
        Ok(None)
    );
    assert_eq!(
        Node::<Local>::open_node_storage::<u8>(Err(StaticStorageOpenError::Read)),
        Err(NodeReadStorageFailure::ReadError)
    );
    assert_eq!(
        Node::<Local>::open_node_storage::<u8>(Err(StaticStorageOpenError::IsLocked)),
        Err(NodeReadStorageFailure::Corrupted)
    );
    assert_eq!(
        Node::<Local>::open_node_storage::<u8>(Err(StaticStorageOpenError::InternalError)),
        Err(NodeReadStorageFailure::InternalError)
    );
}

#[test]
fn the_read_buffer_has_the_advertised_length() {
    assert_eq!(Node::<Local>::read_buffer(0), Some(Vec::new()));
    assert_eq!(Node::<Local>::read_buffer(5), Some(vec![b' '; 5]));
}

#[test]
fn reading_the_details_is_mapped() {
    assert!(matches!(Node::<Local>::get_node_details(None), Ok(None)));
    assert!(matches!(
        Node::<Local>::get_node_details(Some(StoredDetails::Unreadable(
            StaticStorageReadError::ReadError
        ))),
        Err(NodeReadStorageFailure::ReadError)
    ));
    assert!(matches!(
        Node::<Local>::get_node_details(Some(StoredDetails::Undecodable(
            DeserializeError::InternalError
        ))),
        Err(NodeReadStorageFailure::Corrupted)
    ));
    let details = NodeDetails::new(NodeName::new("peer"), Config::new(b"/p".to_vec()));
    match Node::<Local>::get_node_details(Some(StoredDetails::Decoded(details))) {
        Ok(Some(found)) => {
            assert_eq!(found.name().as_str(), "peer");
            assert_eq!(found.config().root(), &b"/p".to_vec());
        }
        other => panic!("unexpected {:?}", other),
    }
}

#[test]
fn list_begins_with_the_first_registration() {
    let listed = vec![NodeId::new(8).as_file_name(), NodeId::new(9).as_file_name()];
    let listing = Node::<Local>::list(Ok(listed));
    assert_eq!(listing.next_action(), ListAction::Probe(8));
}

#[test]
fn list_fails_when_the_registrations_cannot_be_listed() {
    let listing = Node::<Local>::list(Err(NamedConceptListError::InsufficientPermissions));
    assert_eq!(
        listing.next_action(),
        ListAction::Finish(Err(NodeListFailure::InsufficientPermissions))
    );
    let listing = Node::<Local>::list(Err(NamedConceptListError::InternalError));
    assert_eq!(listing.next_action(), ListAction::Finish(Err(NodeListFailure::InternalError)));
}

#[test]
fn a_node_that_holds_its_token_removes_its_resources_at_the_end() {
    let node = node(71);
    let removal = node.shared().teardown().unwrap();
    assert_eq!(removal.phase(), CleanupPhase::Listing);
    assert!(matches!(removal.next_action(), CleanupAction::ListStorages));
    assert_eq!(removal.details_path(), &Some(b"/tmp/fabric/nodes/71".to_vec()));
}

#[test]
fn a_node_whose_death_was_staged_leaves_its_resources() {
    let mut node = node(72);
    assert_eq!(node.staged_death(), "token");
    assert!(node.shared().teardown().is_none());
    assert_eq!(*node.id(), NodeId::new(72));
}

#[test]
fn services_are_opened_and_closed_through_the_node() {
    let mut node = node(73);
    let opened: Result<(), ()> = node.registered_services_mut().add_or("S", || Ok(4));
    assert_eq!(opened, Ok(()));
    assert_eq!(node.shared().registered_services().refcount("S"), 1);
    assert_eq!(node.shared().registered_services().handle("S"), Some(4));
    node.registered_services_mut().remove("S", |_| ());
    assert_eq!(node.shared().registered_services().refcount("S"), 0);
}

#[test]
fn the_artifact_of_the_details_never_belongs_to_a_handle() {
    assert!(!details_storage_has_ownership());
}
