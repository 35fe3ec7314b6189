use iceoryx2_bb_container::semantic_string::SemanticString;
use iceoryx2_node::backend::{
    MonitoringCreateTokenError, SerializeError, StaticStorageCreateError,
    UniqueSystemIdCreationError,
};
use iceoryx2_bb_elementary::CallbackProgression;
use iceoryx2_node::backend::State;
use iceoryx2_node::builder::{CreationAction, CreationPhase, NodeBuilder, NodeCreation};
use iceoryx2_node::cleanup::CleanupAction;
use iceoryx2_node::details::{Config, NodeDetails, NodeName};
use iceoryx2_node::listing::{ListAction, Listing};
use iceoryx2_node::node_state::{NodeState, NodeView};
use iceoryx2_node::failure::NodeCreationFailure;
use iceoryx2_node::node::Service;
use iceoryx2_node::node_id::NodeId;

#[derive(Debug)]
struct Local;

impl Service for Local {
    type Token = &'static str;
    type StaticStorage = u16;
    type Handle = u32;
}

fn global() -> Config {
    Config::new(b"/global".to_vec())
}

fn begun(builder: NodeBuilder, value: u128) -> NodeCreation<Local> {
    match builder.create::<Local>(Ok(NodeId::new(value)), &global()) {
        Ok(creation) => creation,
        Err(failure) => panic!("unexpected {:?}", failure),
    }
}

#[test]
fn create_list_drop() {
    let mut creation = begun(NodeBuilder::new().name(NodeName::new("a")), 101);
    assert_eq!(creation.next_action(), CreationAction::SerializeDetails);
    assert_eq!(creation.details().name().as_str(), "a");
    assert_eq!(creation.serialized(Ok(b"name = 'a'".to_vec())), Ok(()));
    assert_eq!(creation.next_action(), CreationAction::CreateDetailsStorage);
    assert_eq!(creation.storage_name().as_bytes(), b"node");
    assert_eq!(creation.storage_path(), &b"/global/nodes/101".to_vec());
    assert_eq!(creation.storage_content(), &b"name = 'a'".to_vec());
    assert!(!creation.storage_has_ownership());
    assert_eq!(creation.create_node_details_storage(Ok(5)), Ok(()));
    assert_eq!(creation.next_action(), CreationAction::AcquireToken);
    assert_eq!(creation.monitor_name().as_bytes(), b"101");
    assert_eq!(creation.monitor_path(), &b"/global/monitoring".to_vec());
    let node = match creation.create_token(Ok("token")) {
        Ok(node) => node,
        Err(failure) => panic!("unexpected {:?}", failure),
    };
    assert_eq!(node.name().as_str(), "a");
    assert_eq!(*node.id(), NodeId::new(101));
    assert_eq!(node.config().root(), &b"/global".to_vec());

    let mut listing = Listing::begin(&vec![node.id().as_file_name()]);
    assert_eq!(listing.next_action(), ListAction::Probe(101));
    let published = NodeDetails::new(node.name().clone(), node.config().clone());
    let classified = NodeState::new(node.id(), Ok(Some(published)), Ok(State::Alive));
    listing.probed(&classified);
    assert_eq!(listing.next_action(), ListAction::Deliver(101));
    match classified {
        Ok(Some(NodeState::Alive(view))) => {
            assert_eq!(view.id(), node.id());
            assert_eq!(view.details().as_ref().unwrap().name().as_str(), "a");
        }
        other => panic!("unexpected {:?}", other),
    }
    listing.returned(CallbackProgression::Continue);
    assert_eq!(listing.next_action(), ListAction::Finish(Ok(())));

    let mut removal = node.shared().teardown().unwrap();
    assert_eq!(removal.details_path(), &Some(b"/global/nodes/101".to_vec()));
    removal.acquire_all_node_detail_storages(Ok(vec![creation_artifact()]));
    removal.remove_detail_storages(Ok(true));
    removal.remove_node_details_directory(Ok(()));
    assert!(matches!(removal.next_action(), CleanupAction::Finish(Ok(true))));

    let listing = Listing::begin(&Vec::new());
    assert_eq!(listing.next_action(), ListAction::Finish(Ok(())));
}

fn creation_artifact() -> iceoryx2_bb_system_types::file_name::FileName {
    iceoryx2_node::details::details_artifact()
}

#[test]
fn without_a_name_the_node_has_the_empty_name() {
    let creation = begun(NodeBuilder::new(), 102);
    assert_eq!(creation.details().name().as_str(), "");
    assert_eq!(creation.phase(), CreationPhase::Serializing);
}

#[test]
fn the_empty_name_can_be_chosen() {
    let creation = begun(NodeBuilder::new().name(NodeName::new("")), 103);
    assert_eq!(creation.details().name().as_str(), "");
}

#[test]
fn a_chosen_configuration_goes_before_the_global_one() {
    let chosen = Config::new(b"/chosen".to_vec());
    let creation = begun(NodeBuilder::new().config(&chosen).name(NodeName::new("n")), 104);
    assert_eq!(creation.details().config().root(), &b"/chosen".to_vec());
    assert_eq!(creation.storage_path(), &b"/chosen/nodes/104".to_vec());
    assert_eq!(creation.monitor_path(), &b"/chosen/monitoring".to_vec());
    assert_eq!(creation.details().name().as_str(), "n");
}

#[test]
fn without_an_identifier_there_is_no_node() {
    let creation =
        NodeBuilder::new().create::<Local>(Err(UniqueSystemIdCreationError::FailedToAcquireTime), &global());
    assert!(matches!(creation, Err(NodeCreationFailure::InternalError)));
}

#[test]
fn details_that_do_not_serialize_end_the_creation() {
    let mut creation = begun(NodeBuilder::new(), 105);
    assert_eq!(
        creation.serialized(Err(SerializeError::InternalError)),
        Err(NodeCreationFailure::InternalError)
    );
    assert_eq!(creation.phase(), CreationPhase::Failed);
    assert_eq!(
        creation.next_action(),
        CreationAction::GiveUp(NodeCreationFailure::InternalError)
    );
}

#[test]
fn failures_to_create_the_artifact_end_the_creation() {
    for (error, failure) in [
        (StaticStorageCreateError::InsufficientPermissions, NodeCreationFailure::InsufficientPermissions),
        (StaticStorageCreateError::Creation, NodeCreationFailure::InternalError),
        (StaticStorageCreateError::Write, NodeCreationFailure::InternalError),
        (StaticStorageCreateError::InternalError, NodeCreationFailure::InternalError),
    ] {
        let mut creation = begun(NodeBuilder::new(), 106);
        assert_eq!(creation.serialized(Ok(Vec::new())), Ok(()));
        assert_eq!(creation.create_node_details_storage(Err(error)), Err(failure));
        assert_eq!(creation.next_action(), CreationAction::GiveUp(failure));
    }
}

#[test]
fn failures_to_acquire_the_token_end_the_creation() {
    for (error, failure) in [
        (MonitoringCreateTokenError::InsufficientPermissions, NodeCreationFailure::InsufficientPermissions),
        (MonitoringCreateTokenError::InternalError, NodeCreationFailure::InternalError),
    ] {
        let mut creation = begun(NodeBuilder::new(), 107);
        assert_eq!(creation.serialized(Ok(Vec::new())), Ok(()));
        assert_eq!(creation.create_node_details_storage(Ok(1)), Ok(()));
        match creation.create_token(Err(error)) {
            Err(found) => assert_eq!(found, failure),
            Ok(_) => panic!("a node without a token"),
        }
    }
}

#[test]
fn the_default_builder_has_nothing_chosen() {
    let creation = begun(NodeBuilder::default(), 108);
    assert_eq!(creation.details().name().as_str(), "");
    assert_eq!(creation.details().config().root(), &b"/global".to_vec());
}
