//! File names as the system-types crate validates them.

use iceoryx2_bb_container::semantic_string::SemanticString;
use iceoryx2_bb_container::semantic_string::SemanticStringError;
use iceoryx2_bb_system_types::file_name::FileName;
use vstd::prelude::*;

verus! {

/// `iceoryx2_bb_system_types::file_name::FileName`: a string of fixed
/// capacity that holds a valid file name. What it holds is known by
/// `file_name_bytes` only.
#[verifier::external_type_specification]
#[verifier::external_body]
pub struct ExFileName(FileName);

/// `iceoryx2_bb_container::semantic_string::SemanticStringError`, with the
/// variants that the crate gives it.
#[verifier::external_type_specification]
pub struct ExSemanticStringError(SemanticStringError);

/// The bytes that a `FileName` holds: what `SemanticString::as_bytes`
/// returns for it.
pub uninterp spec fn file_name_bytes(name: FileName) -> Seq<u8>;

/// The capacity of a `FileName`: the longest file name that the platform
/// configuration admits.
pub const FILE_NAME_CAPACITY: usize = 255;

/// Bytes that no file name may hold on any supported platform.
pub open spec fn is_forbidden_byte(b: u8) -> bool {
    b <= 31 || b == 0x2f || b == 0x3a || b == 0x5c || b == 0x3c || b == 0x3e || b == 0x22
        || b == 0x7c || b == 0x3f || b == 0x2a
}

/// Contents that are refused although every byte is admitted: the empty
/// name and the two directory links.
pub open spec fn is_reserved_content(s: Seq<u8>) -> bool {
    s.len() == 0 || s == seq![0x2eu8] || s == seq![0x2eu8, 0x2eu8]
}

/// Bytes of which each alone is a character.
pub open spec fn is_ascii_bytes(s: Seq<u8>) -> bool {
    forall|i: int| 0 <= i < s.len() ==> #[trigger] s[i] < 128
}

/// What makes a sequence of ASCII bytes a file name.
pub open spec fn is_file_name(s: Seq<u8>) -> bool {
    &&& s.len() <= FILE_NAME_CAPACITY
    &&& !is_reserved_content(s)
    &&& forall|i: int| 0 <= i < s.len() ==> !is_forbidden_byte(#[trigger] s[i])
}

/// `FileName::new`, that is `SemanticString::new` for `FileName`, on
/// fewer bytes than the capacity.
///
/// The call inserts the bytes and then looks at the content. Content is
/// bad if it is no UTF-8, holds a forbidden byte or is reserved; bad
/// content is taken out again and refused with `InvalidContent`. For ASCII
/// input, which is always UTF-8, the name is accepted exactly if
/// `is_file_name` holds; of other input the contract only says which error
/// comes and that an accepted name holds the bytes given.
///
/// Input that fills the capacity is left out: taking refused content of
/// that length out again reads past the end of the string's buffer, and
/// the call does not return.
#[verifier::external_body]
pub(crate) fn file_name_new(bytes: &[u8]) -> (r: Result<FileName, SemanticStringError>)
    requires
        bytes@.len() < FILE_NAME_CAPACITY,
    ensures
        r is Ok ==> file_name_bytes(r->Ok_0) == bytes@,
        r is Err ==> r->Err_0 == SemanticStringError::InvalidContent,
        is_ascii_bytes(bytes@) ==> (r is Ok <==> is_file_name(bytes@)),
{
    FileName::new(bytes)
}

/// `SemanticString::as_bytes` on a `FileName`: a copy of the bytes it holds.
#[verifier::external_body]
pub(crate) fn file_name_to_bytes(name: &FileName) -> (bytes: Vec<u8>)
    ensures
        bytes@ == file_name_bytes(*name),
{
    name.as_bytes().to_vec()
}

} // verus!
