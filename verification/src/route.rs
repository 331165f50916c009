//! The routing service: answers one inbound request with a model built
//! from the optional display prefix in the query.

use vstd::prelude::*;

verus! {

/// Query of the routing service: an optional display prefix.
#[derive(Debug)]
pub struct Prefix {
    pub p: Option<String>,
}

/// Response model of the routing service.
#[derive(Debug)]
pub struct Model {
    pub key_one: String,
    pub key_two: String,
}

/// The effective prefix: the passed value, or the documented default.
pub open spec fn chosen_prefix(p: Option<String>) -> Seq<char> {
    match p {
        Some(s) => s@,
        None => "Unknown"@,
    }
}

/// Applies the documented default for an absent query parameter.
pub fn choose_prefix(p: Option<String>) -> (r: String)
    ensures
        r@ == chosen_prefix(p),
{
    match p {
        Some(s) => s,
        None => String::from_str("Unknown"),
    }
}

/// Builds the routing service's response for the effective prefix.
pub fn handler(q: Prefix) -> (m: Model)
    ensures
        m.key_one@ == "("@ + chosen_prefix(q.p) + ")Field 1"@,
        m.key_two@ == "("@ + chosen_prefix(q.p) + ")Field 2"@,
{
    let prefix = choose_prefix(q.p);
    let key_one = String::from_str("(").concat(prefix.as_str()).concat(")Field 1");
    let key_two = String::from_str("(").concat(prefix.as_str()).concat(")Field 2");
    Model { key_one, key_two }
}

} // verus!
