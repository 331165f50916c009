use traceagg::health::health;
use traceagg::route::{choose_prefix, handler, Prefix};
use traceagg::timesvc;
use traceagg::weather::{choose_zip, weather_url};

#[test]
fn route_handler_formats_both_fields() {
    let m = handler(Prefix { p: Some(String::from("abc")) });
    assert_eq!(m.key_one, "(abc)Field 1");
    assert_eq!(m.key_two, "(abc)Field 2");
}

#[test]
fn route_handler_defaults_absent_prefix() {
    let m = handler(Prefix { p: None });
    assert_eq!(m.key_one, "(Unknown)Field 1");
    assert_eq!(m.key_two, "(Unknown)Field 2");
}

#[test]
fn prefix_default_applies_only_when_absent() {
    assert_eq!(choose_prefix(Some(String::from("x"))), "x");
    assert_eq!(choose_prefix(None), "Unknown");
}

#[test]
fn health_is_fixed() {
    assert_eq!(health().status, "Healthy");
}

#[test]
fn time_handler_passes_instant_through() {
    let m = timesvc::handler(123456789);
    assert_eq!(m.key_time, 123456789);
}

#[test]
fn weather_query_uses_zip_param() {
    // Param present: the outbound dependency call uses it.
    let zip = choose_zip(Some(String::from("90210")));
    let u = weather_url("http://api", zip.as_str(), "testkey");
    assert_eq!(u, "http://api/current.json?q=90210&key=testkey");
}

#[test]
fn weather_query_defaults_zip_param() {
    // Param absent: the documented default is used.
    let zip = choose_zip(None);
    assert_eq!(zip, "76262");
    let u = weather_url("http://api", zip.as_str(), "k");
    assert_eq!(u, "http://api/current.json?q=76262&key=k");
}
