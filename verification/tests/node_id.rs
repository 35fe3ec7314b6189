use iceoryx2_bb_container::semantic_string::SemanticString;
use iceoryx2_bb_system_types::file_name::FileName;
use iceoryx2_node::node_id::NodeId;

#[test]
fn an_identifier_keeps_its_value() {
    assert_eq!(NodeId::new(77).value(), 77);
    assert_eq!(NodeId::new(u128::MAX).value(), u128::MAX);
}

#[test]
fn identifiers_are_equal_when_their_values_are() {
    assert_eq!(NodeId::new(5), NodeId::new(5));
    assert_ne!(NodeId::new(5), NodeId::new(6));
}

#[test]
fn the_file_name_is_the_value_in_decimal_notation() {
    let id = NodeId::new(123456789012345678901234567890);
    assert_eq!(id.file_name(), b"123456789012345678901234567890".to_vec());
    assert_eq!(id.as_file_name().as_bytes(), b"123456789012345678901234567890");
    assert_eq!(
        id.as_file_name(),
        FileName::new(b"123456789012345678901234567890").unwrap()
    );
}

#[test]
fn the_smallest_and_the_largest_identifier_have_file_names() {
    assert_eq!(NodeId::new(0).as_file_name().as_bytes(), b"0");
    assert_eq!(
        NodeId::new(u128::MAX).as_file_name().as_bytes(),
        b"340282366920938463463374607431768211455"
    );
}

#[test]
fn a_registration_names_the_identifier_that_wrote_it() {
    for value in [0u128, 1, 42, 1 << 96, u128::MAX] {
        let name = NodeId::new(value).as_file_name();
        assert!(NodeId::is_registration(&name));
        assert_eq!(NodeId::value_of_registration(&name), Some(value));
    }
}

#[test]
fn identifiers_with_one_file_name_are_equal() {
    for (a, b) in [(0u128, 0u128), (5, 5), (5, 50), (10, 1), (u128::MAX, u128::MAX - 1)] {
        let (left, right) = (NodeId::new(a), NodeId::new(b));
        assert_eq!(left.as_file_name() == right.as_file_name(), left == right);
    }
}

#[test]
fn different_identifiers_have_different_file_names() {
    let names: Vec<Vec<u8>> = (0u128..200).map(|v| NodeId::new(v * 7).file_name()).collect();
    for i in 0..names.len() {
        for j in 0..i {
            assert_ne!(names[i], names[j]);
        }
    }
}

#[test]
fn foreign_file_names_are_no_registrations() {
    for text in ["node", "12.monitor", "-5", "1e3", "340282366920938463463374607431768211456"] {
        let name = FileName::new(text.as_bytes()).unwrap();
        assert!(!NodeId::is_registration(&name));
        assert_eq!(NodeId::value_of_registration(&name), None);
    }
}

#[test]
fn a_registration_may_carry_a_plus_sign() {
    let name = FileName::new(b"+15").unwrap();
    assert!(NodeId::is_registration(&name));
    assert_eq!(NodeId::value_of_registration(&name), Some(15));
}
