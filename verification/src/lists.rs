//! Allow-list parsing: the backing store is a JSON document holding a
//! list of strings. Reading the file is the shell's business; turning its
//! bytes into the list is decided here.
use vstd::prelude::*;

verus! {

/// The error type of serde_json.
#[verifier::external_type_specification]
#[verifier::external_body]
pub struct ExSerdeJsonError(serde_json::Error);

/// What `serde_json::from_slice::<Vec<String>>` returns for given bytes:
/// `None` where they are not a JSON list of strings.
pub uninterp spec fn parsed_list_of(b: Seq<u8>) -> Option<Seq<Seq<char>>>;

/// Relies on serde_json::from_slice::<Vec<String>>: it never panics, and
/// the result depends on the bytes alone.
#[verifier::external_body]
fn from_slice_string_list(b: &Vec<u8>) -> (r: Result<Vec<String>, serde_json::Error>)
    ensures
        r is Ok <==> parsed_list_of(b@) is Some,
        r matches Ok(v) ==> v@.map_values(|s: String| s@) == parsed_list_of(b@)->0,
{
    serde_json::from_slice(b)
}

/// The bytes are not a JSON list of strings.
#[derive(PartialEq, Eq, Structural, Clone, Copy, Debug)]
pub struct MalformedList;

/// Parse one allow-list: the bytes of its backing JSON document become
/// the ordered list of strings, or an error exactly where the document is
/// not a JSON list of strings.
pub fn parse_json_to_vector(bytes: &Vec<u8>) -> (r: Result<Vec<String>, MalformedList>)
    ensures
        r is Ok <==> parsed_list_of(bytes@) is Some,
        r matches Ok(v) ==> v@.map_values(|s: String| s@) == parsed_list_of(bytes@)->0,
{
    match from_slice_string_list(bytes) {
        Ok(v) => Ok(v),
        Err(_) => Err(MalformedList),
    }
}

} // verus!
