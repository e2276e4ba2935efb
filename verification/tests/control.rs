use dsmr_bridge::endpoint::Endpoint;
use dsmr_bridge::endpoints::{
    addr_text_of_pairs, client_addr_text, parse_client_addr, route, Route,
};
use dsmr_bridge::error::{ControlError, ParamError};

#[test]
fn routes_by_prefix() {
    assert_eq!(route("/status"), Route::Status);
    assert_eq!(route("/start"), Route::Start);
    assert_eq!(route("/stop"), Route::Stop);
    assert_eq!(route("/register?ip=1.2.3.4&port=5"), Route::Register);
    assert_eq!(route("/unregister?ip=1.2.3.4&port=5"), Route::Unregister);
    assert_eq!(route("/list"), Route::List);
}

#[test]
fn longer_targets_route_by_their_prefix() {
    assert_eq!(route("/status/now"), Route::Status);
    assert_eq!(route("/started"), Route::Start);
    assert_eq!(route("/stopwatch"), Route::Stop);
    assert_eq!(route("/registered"), Route::Register);
    assert_eq!(route("/listing?x=1"), Route::List);
}

#[test]
fn other_targets_ask_for_the_latest_reading() {
    assert_eq!(route("/"), Route::Latest);
    assert_eq!(route(""), Route::Latest);
    assert_eq!(route("/sta"), Route::Latest);
    assert_eq!(route("/lis"), Route::Latest);
    assert_eq!(route("status"), Route::Latest);
    assert_eq!(route("/Status"), Route::Latest);
    assert_eq!(route("/data/status"), Route::Latest);
    assert_eq!(route("/\u{e9}t\u{e9}"), Route::Latest);
}

#[test]
fn query_with_ip_and_port_gives_the_address_text() {
    assert_eq!(
        client_addr_text(Some("ip=192.168.1.7&port=4000")),
        Ok(String::from("192.168.1.7:4000"))
    );
    assert_eq!(
        client_addr_text(Some("port=4000&x=y&ip=192.168.1.7")),
        Ok(String::from("192.168.1.7:4000"))
    );
}

#[test]
fn query_values_are_percent_decoded() {
    assert_eq!(
        client_addr_text(Some("ip=%5B%3A%3A1%5D&port=2")),
        Ok(String::from("[::1]:2"))
    );
    assert_eq!(client_addr_text(Some("ip=a+b&port=1")), Ok(String::from("a b:1")));
}

#[test]
fn the_last_of_repeated_parameters_counts() {
    assert_eq!(
        client_addr_text(Some("port=1&ip=10.0.0.1&port=2&ip=10.0.0.2")),
        Ok(String::from("10.0.0.2:2"))
    );
}

#[test]
fn empty_values_are_values() {
    assert_eq!(client_addr_text(Some("ip&port")), Ok(String::from(":")));
    assert_eq!(client_addr_text(Some("ip=&port=")), Ok(String::from(":")));
}

#[test]
fn missing_parameters_are_named() {
    assert_eq!(
        client_addr_text(None),
        Err(ControlError::InvalidRequestParameters(ParamError::NoQuery))
    );
    assert_eq!(
        client_addr_text(Some("")),
        Err(ControlError::InvalidRequestParameters(ParamError::NoIp))
    );
    assert_eq!(
        client_addr_text(Some("port=4000")),
        Err(ControlError::InvalidRequestParameters(ParamError::NoIp))
    );
    assert_eq!(
        client_addr_text(Some("ip=1.2.3.4")),
        Err(ControlError::InvalidRequestParameters(ParamError::NoPort))
    );
    assert_eq!(
        client_addr_text(Some("IP=1.2.3.4&Port=5")),
        Err(ControlError::InvalidRequestParameters(ParamError::NoIp))
    );
}

fn toy_parser(text: String) -> Option<Endpoint> {
    let (ip, port) = text.split_once(':')?;
    Some(Endpoint::V4 { ip: ip.parse().ok()?, port: port.parse().ok()? })
}

#[test]
fn the_address_is_what_the_parser_makes_of_the_text() {
    assert_eq!(
        parse_client_addr(Some("ip=7&port=4000"), toy_parser),
        Ok(Endpoint::V4 { ip: 7, port: 4000 })
    );
    let mut seen = String::new();
    let answer = parse_client_addr(Some("port=9&ip=10.0.0.1&port=80"), |text| {
        seen = text;
        Some(Endpoint::V6 { ip: 1, port: 80, flowinfo: 0, scope_id: 0 })
    });
    assert_eq!(answer, Ok(Endpoint::V6 { ip: 1, port: 80, flowinfo: 0, scope_id: 0 }));
    assert_eq!(seen, "10.0.0.1:80");
}

#[test]
fn text_that_the_parser_refuses_is_a_bad_address() {
    assert_eq!(
        parse_client_addr(Some("ip=7&port=70000"), toy_parser),
        Err(ControlError::InvalidRequestParameters(ParamError::BadAddress))
    );
    assert_eq!(
        parse_client_addr(Some("ip=&port="), toy_parser),
        Err(ControlError::InvalidRequestParameters(ParamError::BadAddress))
    );
}

#[test]
fn the_parser_is_not_asked_where_a_parameter_is_missing() {
    let mut asked = false;
    let answer = parse_client_addr(Some("ip=7"), |_| {
        asked = true;
        None
    });
    assert_eq!(answer, Err(ControlError::InvalidRequestParameters(ParamError::NoPort)));
    let none = parse_client_addr(None, |_| {
        asked = true;
        None
    });
    assert_eq!(none, Err(ControlError::InvalidRequestParameters(ParamError::NoQuery)));
    assert!(!asked);
}

fn pair(name: &str, value: &str) -> (String, String) {
    (String::from(name), String::from(value))
}

#[test]
fn pairs_name_the_address() {
    let pairs = vec![pair("port", "80"), pair("ip", "1.2.3.4"), pair("x", "y")];
    assert_eq!(addr_text_of_pairs(&pairs), Ok(String::from("1.2.3.4:80")));
    let repeated = vec![pair("ip", "a"), pair("port", "1"), pair("ip", "b"), pair("port", "2")];
    assert_eq!(addr_text_of_pairs(&repeated), Ok(String::from("b:2")));
}

#[test]
fn pairs_without_an_address_or_a_port() {
    assert_eq!(
        addr_text_of_pairs(&Vec::new()),
        Err(ControlError::InvalidRequestParameters(ParamError::NoIp))
    );
    assert_eq!(
        addr_text_of_pairs(&vec![pair("port", "80")]),
        Err(ControlError::InvalidRequestParameters(ParamError::NoIp))
    );
    assert_eq!(
        addr_text_of_pairs(&vec![pair("ip", "1.2.3.4"), pair("ports", "80")]),
        Err(ControlError::InvalidRequestParameters(ParamError::NoPort))
    );
}
