use iceoryx2_node::failure::{
    NodeCleanupFailure, NodeCreationFailure, NodeListFailure, NodeReadStorageFailure,
};

#[test]
fn creation_failures_are_named_with_their_type() {
    assert_eq!(
        NodeCreationFailure::InsufficientPermissions.to_string(),
        "NodeCreationFailure::InsufficientPermissions"
    );
    assert_eq!(
        NodeCreationFailure::InternalError.to_string(),
        "NodeCreationFailure::InternalError"
    );
}

#[test]
fn list_failures_are_named_with_their_type() {
    assert_eq!(
        NodeListFailure::InsufficientPermissions.to_string(),
        "NodeListFailure::InsufficientPermissions"
    );
    assert_eq!(NodeListFailure::Interrupt.to_string(), "NodeListFailure::Interrupt");
    assert_eq!(NodeListFailure::InternalError.to_string(), "NodeListFailure::InternalError");
}

#[test]
fn cleanup_failures_are_named_with_their_type() {
    assert_eq!(NodeCleanupFailure::Interrupt.to_string(), "NodeCleanupFailure::Interrupt");
    assert_eq!(
        NodeCleanupFailure::InternalError.to_string(),
        "NodeCleanupFailure::InternalError"
    );
    assert_eq!(
        NodeCleanupFailure::InsufficientPermissions.to_string(),
        "NodeCleanupFailure::InsufficientPermissions"
    );
}

#[test]
fn the_names_are_those_of_the_debug_formatting() {
    for failure in [
        NodeCleanupFailure::Interrupt,
        NodeCleanupFailure::InternalError,
        NodeCleanupFailure::InsufficientPermissions,
    ] {
        assert_eq!(failure.to_string(), format!("NodeCleanupFailure::{:?}", failure));
    }
    assert_eq!(format!("{:?}", NodeReadStorageFailure::Corrupted), "Corrupted");
}
