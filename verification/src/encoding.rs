//! How a list of display names is written into an event's content.

use vstd::prelude::*;
use crate::text::names_of;

verus! {

/// The JSON text that `serde_json::to_string` writes for a list of strings:
/// an array of string literals.
pub uninterp spec fn json_array(names: Seq<Seq<char>>) -> Seq<char>;

/// Calls `serde_json::to_string` on a list of strings; `None` stands for
/// its error. It returns a text for every such list: serde_json documents
/// two causes of an error, a value whose own serialisation fails and a map
/// whose keys are no strings, and a list of strings is neither; the text is
/// written into a vector in memory, the one other place where its source
/// takes an error from. The text depends on the strings alone and is the
/// one that `json_array` names.
#[verifier::external_body]
pub(crate) fn encode_names(names: &Vec<String>) -> (encoded: Option<String>)
    ensures
        encoded is Some,
        encoded matches Some(text) ==> text@ == json_array(names_of(names@)),
{
    match serde_json::to_string(names) {
        Ok(text) => Some(text),
        Err(_) => None,
    }
}

} // verus!
