//! The text form of the command definitions, as serde_json writes it.

use crate::table::{keys_unique, map_of};
use vstd::prelude::*;

verus! {

/// The JSON object that serde_json writes for a map of strings to strings.
pub uninterp spec fn json_object_of(m: Map<Seq<char>, Seq<char>>) -> Seq<char>;

/// Relies on serde_json::to_string over a BTreeMap of strings: a map whose keys
/// are strings serialises without error, and since a BTreeMap is walked in key
/// order the text depends on the map's entries alone.
#[verifier::external_body]
pub(crate) fn commands_json(entries: &Vec<(String, String)>) -> (r: String)
    requires
        keys_unique(entries@),
    ensures
        r@ == json_object_of(map_of(entries@)),
{
    let m: std::collections::BTreeMap<&String, &String> = entries.iter().map(|e| (&e.0, &e.1)).collect();
    serde_json::to_string(&m).expect("a map with string keys serialises")
}

} // verus!
