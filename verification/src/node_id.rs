//! The identity of a node and the file name under which it is registered.

use crate::decimal::{
    decimal_digits, encode_decimal, is_digit, lemma_decimal_round_trip, lemma_digit_count_u128,
    lemma_digits_denote, lemma_digits_injective, parse_decimal, parsed_decimal,
};
use crate::file_name::{
    file_name_bytes, file_name_new, file_name_to_bytes, is_ascii_bytes, is_file_name,
    is_forbidden_byte,
};
use iceoryx2_bb_system_types::file_name::FileName;
use vstd::pervasive::unreached;
use vstd::prelude::*;

verus! {

/// The system-wide unique identifier of a node.
///
/// It is one number; two nodes that live at the same time never share
/// it. Whoever mints it puts the minting process into the number, and
/// reads it out again for a process that wants to recognise its own
/// nodes.
#[derive(Debug, Clone, Copy, PartialEq, Eq, Hash, Structural)]
pub struct NodeId {
    value: u128,
}

impl NodeId {
    pub closed spec fn spec_value(&self) -> u128 {
        self.value
    }

    /// The name under which the node is registered: its value in decimal
    /// notation.
    pub open spec fn spec_file_name(&self) -> Seq<u8> {
        decimal_digits(self.spec_value() as nat)
    }

    /// The identifier with this value.
    pub fn new(value: u128) -> (id: NodeId)
        ensures
            id.spec_value() == value,
    {
        NodeId { value }
    }

    #[verifier::when_used_as_spec(spec_value)]
    pub fn value(&self) -> (value: u128)
        ensures
            value == self.spec_value(),
    {
        self.value
    }

    /// The file name of the node in the monitoring directory and of its
    /// directory of details. An identifier always has one.
    pub fn as_file_name(&self) -> (name: FileName)
        ensures
            file_name_bytes(name) == self.spec_file_name(),
    {
        let digits = encode_decimal(self.value);
        proof {
            lemma_node_file_name_is_valid(self.value);
            lemma_digit_count_u128(self.value);
        }
        match file_name_new(digits.as_slice()) {
            Ok(name) => name,
            Err(_) => unreached(),
        }
    }

    /// The bytes of the node's file name.
    pub fn file_name(&self) -> (bytes: Vec<u8>)
        ensures
            bytes@ == self.spec_file_name(),
            is_file_name(bytes@),
    {
        proof {
            lemma_node_file_name_is_valid(self.value);
        }
        encode_decimal(self.value)
    }

    /// Whether `name` is the registration of some node.
    pub fn is_registration(name: &FileName) -> (known: bool)
        ensures
            known == parsed_decimal(file_name_bytes(*name)).is_some(),
    {
        let bytes = file_name_to_bytes(name);
        parse_decimal(bytes.as_slice()).is_some()
    }

    /// The value of the identifier that is registered under `name`.
    pub fn value_of_registration(name: &FileName) -> (value: Option<u128>)
        ensures
            value == parsed_decimal(file_name_bytes(*name)),
    {
        let bytes = file_name_to_bytes(name);
        parse_decimal(bytes.as_slice())
    }
}

/// The decimal notation of an identifier is a file name.
pub proof fn lemma_node_file_name_is_valid(value: u128)
    ensures
        is_ascii_bytes(decimal_digits(value as nat)),
        is_file_name(decimal_digits(value as nat)),
{
    let d = decimal_digits(value as nat);
    lemma_digits_denote(value as nat);
    lemma_digit_count_u128(value);
    assert forall|i: int| 0 <= i < d.len() implies #[trigger] d[i] < 128 && !is_forbidden_byte(
        d[i],
    ) by {
        assert(is_digit(d[i]));
    }
    assert(is_digit(d[0]));
    if d.len() == 2 {
        assert(is_digit(d[1]));
    }
}

/// A registration read back names the node that wrote it.
pub proof fn lemma_registration_round_trip(id: NodeId)
    ensures
        parsed_decimal(id.spec_file_name()) == Some(id.spec_value()),
{
    lemma_decimal_round_trip(id.spec_value());
}

/// An identifier is its value and nothing else.
pub proof fn lemma_identifier_is_its_value(a: NodeId, b: NodeId)
    ensures
        a == b <==> a.spec_value() == b.spec_value(),
{
}

/// Nodes with different identifiers are registered under different names.
pub proof fn lemma_registration_is_injective(a: NodeId, b: NodeId)
    requires
        a.spec_file_name() == b.spec_file_name(),
    ensures
        a == b,
{
    lemma_digits_injective(a.spec_value() as nat, b.spec_value() as nat);
}

} // verus!
