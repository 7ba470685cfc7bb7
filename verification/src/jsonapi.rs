//! The documents of the JSON:API format.

use vstd::prelude::*;
use std::collections::HashMap;

verus! {

/// An error object.
pub struct JSONAPIError {
    pub status: String,
    pub canonical: String,
    pub title: String,
    pub detail: String,
}

/// A document that updates a resource: its id and type, its attributes,
/// and its relationships by name, each with its key and the resources it
/// points to.
pub struct JSONAPIPatch {
    pub id: String,
    pub type_: String,
    pub attributes: Option<Vec<HashMap<String, String>>>,
    pub relationships: Option<Vec<(String, (String, Vec<HashMap<String, String>>))>>,
}

} // verus!
