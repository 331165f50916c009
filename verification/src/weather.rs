//! The weather service's verifiable part: choosing the effective zip code
//! and building the outbound provider query.  The provider's temperature
//! fields are floating point and stay with the unverified caller; the
//! location fields are modelled here.

use vstd::prelude::*;

verus! {

/// Query of the weather service: an optional zip code.
#[derive(Debug)]
pub struct Prefix {
    pub zip: Option<String>,
}

/// Location fields of the weather provider's reply.
#[derive(Debug)]
pub struct WeatherApiLocationResponse {
    pub name: String,
    pub region: String,
}

/// The effective zip code: the passed value, or the documented default.
pub open spec fn chosen_zip(zip: Option<String>) -> Seq<char> {
    match zip {
        Some(s) => s@,
        None => "76262"@,
    }
}

/// Applies the documented default for an absent query parameter.
pub fn choose_zip(zip: Option<String>) -> (r: String)
    ensures
        r@ == chosen_zip(zip),
{
    match zip {
        Some(s) => s,
        None => String::from_str("76262"),
    }
}

/// Builds the outbound provider query for the effective zip code and the
/// configured provider key.
pub fn weather_url(host: &str, zip: &str, key: &str) -> (u: String)
    ensures
        u@ == host@ + "/current.json?q="@ + zip@ + "&key="@ + key@,
{
    String::from_str(host).concat("/current.json?q=").concat(zip).concat("&key=").concat(key)
}

} // verus!
