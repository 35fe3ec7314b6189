use iceoryx2_bb_elementary::CallbackProgression;
use iceoryx2_bb_system_types::file_name::FileName;
use iceoryx2_bb_container::semantic_string::SemanticString;
use iceoryx2_node::backend::{NamedConceptListError, State};
use iceoryx2_node::failure::NodeListFailure;
use iceoryx2_node::listing::{list_all_nodes, ListAction, ListPhase, Listing};
use iceoryx2_node::node_id::NodeId;
use iceoryx2_node::node_state::NodeState;

fn names(values: &[u128]) -> Vec<FileName> {
    values.iter().map(|v| NodeId::new(*v).as_file_name()).collect()
}

fn found(value: u128) -> Result<Option<NodeState>, NodeListFailure> {
    NodeState::new(&NodeId::new(value), Ok(None), Ok(State::Alive))
}

#[test]
fn listing_failures_are_mapped() {
    assert_eq!(
        list_all_nodes(Err(NamedConceptListError::InsufficientPermissions)).err(),
        Some(NodeListFailure::InsufficientPermissions)
    );
    assert_eq!(
        list_all_nodes(Err(NamedConceptListError::InternalError)).err(),
        Some(NodeListFailure::InternalError)
    );
    let listed = list_all_nodes(Ok(names(&[3, 1]))).unwrap();
    assert_eq!(listed.len(), 2);
    assert_eq!(listed[0].as_bytes(), b"3");
    assert_eq!(listed[1].as_bytes(), b"1");
}

#[test]
fn an_empty_fabric_is_enumerated_at_once() {
    let listing = Listing::begin(&Vec::new());
    assert_eq!(listing.phase(), ListPhase::Done);
    assert_eq!(listing.next_action(), ListAction::Finish(Ok(())));
}

#[test]
fn a_failed_listing_ends_with_its_failure() {
    let listing = Listing::failed(NodeListFailure::Interrupt);
    assert_eq!(listing.next_action(), ListAction::Finish(Err(NodeListFailure::Interrupt)));
}

#[test]
fn every_registration_is_looked_at_in_the_order_of_the_listing() {
    let mut listing = Listing::begin(&names(&[30, 10, 20]));
    let mut delivered = Vec::new();
    let mut probes = Vec::new();
    loop {
        match listing.next_action() {
            ListAction::Probe(value) => {
                probes.push(value);
                listing.probed(&found(value));
            }
            ListAction::Deliver(value) => {
                delivered.push(value);
                listing.returned(CallbackProgression::Continue);
            }
            ListAction::Finish(result) => {
                assert_eq!(result, Ok(()));
                break;
            }
        }
    }
    assert_eq!(probes, vec![30, 10, 20]);
    assert_eq!(delivered, vec![30, 10, 20]);
}

#[test]
fn a_vanished_registration_is_passed_over_without_failure() {
    let mut listing = Listing::begin(&names(&[1, 2]));
    assert_eq!(listing.next_action(), ListAction::Probe(1));
    listing.probed(&Ok(None));
    assert_eq!(listing.next_action(), ListAction::Probe(2));
    listing.probed(&Ok(None));
    assert_eq!(listing.next_action(), ListAction::Finish(Ok(())));
}

#[test]
fn the_callback_stops_the_enumeration() {
    let mut listing = Listing::begin(&names(&[1, 2, 3]));
    listing.probed(&found(1));
    assert_eq!(listing.phase(), ListPhase::Delivering);
    assert_eq!(listing.next_action(), ListAction::Deliver(1));
    listing.returned(CallbackProgression::Stop);
    assert_eq!(listing.phase(), ListPhase::Done);
    assert_eq!(listing.next_action(), ListAction::Finish(Ok(())));
}

#[test]
fn a_failed_look_ends_the_enumeration() {
    let mut listing = Listing::begin(&names(&[1, 2, 3]));
    listing.probed(&found(1));
    listing.returned(CallbackProgression::Continue);
    assert_eq!(listing.next_action(), ListAction::Probe(2));
    listing.probed(&Err(NodeListFailure::Interrupt));
    assert_eq!(listing.next_action(), ListAction::Finish(Err(NodeListFailure::Interrupt)));
}

#[test]
fn registrations_with_a_sign_or_leading_zeros_are_read() {
    let listed = vec![FileName::new(b"+7").unwrap(), FileName::new(b"0012").unwrap()];
    let mut listing = Listing::begin(&listed);
    assert_eq!(listing.next_action(), ListAction::Probe(7));
    listing.probed(&Ok(None));
    assert_eq!(listing.next_action(), ListAction::Probe(12));
}
