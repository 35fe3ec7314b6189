use iceoryx2_bb_container::semantic_string::SemanticString;
use iceoryx2_node::details::{details_artifact, Config, NodeDetails, NodeName};
use iceoryx2_node::node_id::NodeId;

#[test]
fn a_name_keeps_its_text() {
    assert_eq!(NodeName::new("my_little_node").as_str(), "my_little_node");
    assert_eq!(NodeName::new("").as_str(), "");
    assert_eq!(NodeName::empty().as_str(), "");
}

#[test]
fn a_copied_name_has_the_same_text() {
    let name = NodeName::new("grüße");
    assert_eq!(name.clone().as_str(), "grüße");
}

#[test]
fn a_configuration_keeps_its_root() {
    let config = Config::new(b"/tmp/iceoryx2".to_vec());
    assert_eq!(config.root(), &b"/tmp/iceoryx2".to_vec());
    assert_eq!(config.clone().root(), &b"/tmp/iceoryx2".to_vec());
}

#[test]
fn registrations_lie_in_the_monitoring_directory() {
    let config = Config::new(b"/tmp/iceoryx2".to_vec());
    assert_eq!(config.node_monitoring_path(), b"/tmp/iceoryx2/monitoring".to_vec());
    assert_eq!(Config::new(Vec::new()).node_monitoring_path(), b"/monitoring".to_vec());
}

#[test]
fn details_lie_in_a_directory_named_by_the_node() {
    let config = Config::new(b"/tmp/iceoryx2".to_vec());
    assert_eq!(
        config.node_details_path(&NodeId::new(4711)),
        b"/tmp/iceoryx2/nodes/4711".to_vec()
    );
    assert_eq!(
        config.node_details_path(&NodeId::new(0)),
        b"/tmp/iceoryx2/nodes/0".to_vec()
    );
}

#[test]
fn different_nodes_have_different_directories() {
    let config = Config::new(b"/r".to_vec());
    assert_ne!(
        config.node_details_path(&NodeId::new(1)),
        config.node_details_path(&NodeId::new(11))
    );
}

#[test]
fn the_artifact_of_the_details_is_called_node() {
    assert_eq!(details_artifact().as_bytes(), b"node");
}

#[test]
fn details_keep_name_and_configuration() {
    let details = NodeDetails::new(NodeName::new("a"), Config::new(b"/x".to_vec()));
    assert_eq!(details.name().as_str(), "a");
    assert_eq!(details.config().root(), &b"/x".to_vec());
    let copy = details.clone();
    assert_eq!(copy.name().as_str(), "a");
    assert_eq!(copy.config().root(), &b"/x".to_vec());
}
