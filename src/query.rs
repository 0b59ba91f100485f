//! The request sent to the journey planner: two trip queries in one body.
use vstd::prelude::*;

verus! {

/// Address of the journey planner.
pub const API_URL: &'static str = "https://api.entur.io/journey-planner/v3/graphql";

/// Value of the header that names this client to the journey planner.
pub const CLIENT_NAME: &'static str = "eilefsen-entur_display";

/// Text of a trip query before the origin's place id.
pub const TRIP_QUERY_HEAD: &'static str = "\n\t\t\ttrip(\n\t\t\t\tfrom: {\n\t\t\t\t\tplace: \"";

/// Text of a trip query between the origin's and the destination's place ids.
pub const TRIP_QUERY_MIDDLE: &'static str = "\"\n\t\t\t\t},\n\t\t\t\tto: {\n\t\t\t\t\tplace: \"";

/// Text of a trip query after the destination's place id: at most four trip
/// patterns, by bus only, and for each leg its expected start time and line.
pub const TRIP_QUERY_TAIL: &'static str = "\"\n\t\t\t\t},\n\t\t\t\tnumTripPatterns: 4\n\t\t\t\tmodes: {\n\t\t\t\t\ttransportModes: [{\n\t\t\t\t\t\ttransportMode: bus\n\t\t\t\t\t}]\n\t\t\t\t}\n\t\t\t) {\n\t\t\t\ttripPatterns {\n\t\t\t\t\tlegs {\n\t\t\t\t\t\texpectedStartTime\n\t\t\t\t\t\tline {\n\t\t\t\t\t\t\tpublicCode\n\t\t\t\t\t\t}\n\t\t\t\t\t}\n\t\t\t\t}\n\t\t\t}\n\t\t";

/// Text of the whole query before the first trip query.
pub const QUERY_HEAD: &'static str = "{\n\t\t\ttrip1: ";

/// Text of the whole query between the two trip queries.
pub const QUERY_MIDDLE: &'static str = ", trip2: ";

/// Text of the whole query after the second trip query.
pub const QUERY_TAIL: &'static str = "\n\t\t}";

/// Text of a request body before the query, as a JSON string.
pub const BODY_HEAD: &'static str = "{\"query\":";

/// Text of a request body after the query.
pub const BODY_TAIL: &'static str = "}";

/// The JSON string literal, quoted and escaped, for a text.
pub uninterp spec fn json_string(text: Seq<char>) -> Seq<char>;

/// Relies on `serde_json::to_string` on a `str`: it writes the text as one
/// JSON string literal into a `Vec<u8>`, and a `str` gives it no cause to fail.
#[verifier::external_body]
fn json_string_literal(text: &str) -> (r: String)
    ensures
        r@ == json_string(text@),
{
    serde_json::to_string(text).unwrap_or_default()
}

/// The settings the device is built with: the network to join, and the origin
/// and destination place ids of the two trips shown.
#[derive(Clone, Copy, Debug)]
pub struct Config {
    pub wifi_ssid: &'static str,
    pub wifi_psk: &'static str,
    pub from_place1: &'static str,
    pub to_place1: &'static str,
    pub from_place2: &'static str,
    pub to_place2: &'static str,
}

/// Where and what to ask the journey planner.
#[derive(Debug)]
pub struct RequestConfig {
    pub url: &'static str,
    pub headers: Vec<(&'static str, &'static str)>,
    pub query: String,
}

/// The text of one trip query from place `from` to place `to`.
pub open spec fn trip_query(from: Seq<char>, to: Seq<char>) -> Seq<char> {
    TRIP_QUERY_HEAD@ + from + TRIP_QUERY_MIDDLE@ + to + TRIP_QUERY_TAIL@
}

/// The text of the whole query for the two trips of `c`.
pub open spec fn full_query(c: Config) -> Seq<char> {
    QUERY_HEAD@ + trip_query(c.from_place1@, c.to_place1@) + QUERY_MIDDLE@ + trip_query(
        c.from_place2@,
        c.to_place2@,
    ) + QUERY_TAIL@
}

/// The trip query from place `from` to place `to`: up to four trip patterns by
/// bus, with each leg's expected start time and line.
pub fn make_query(from: &str, to: &str) -> (r: String)
    ensures
        r@ == trip_query(from@, to@),
{
    let mut q = String::from_str(TRIP_QUERY_HEAD);
    q.append(from);
    q.append(TRIP_QUERY_MIDDLE);
    q.append(to);
    q.append(TRIP_QUERY_TAIL);
    q
}

/// The request for the two trips of `config`: the journey planner's address,
/// a JSON content type and this client's name, and both trip queries in one.
pub fn client(config: &Config) -> (r: RequestConfig)
    ensures
        r.url@ == API_URL@,
        r.headers@.len() == 2,
        r.headers@[0].0@ == "content-type"@,
        r.headers@[0].1@ == "application/json"@,
        r.headers@[1].0@ == "ET-Client-Name"@,
        r.headers@[1].1@ == CLIENT_NAME@,
        r.query@ == full_query(*config),
{
    let first = make_query(config.from_place1, config.to_place1);
    let second = make_query(config.from_place2, config.to_place2);
    let mut query = String::from_str(QUERY_HEAD);
    query.append(first.as_str());
    query.append(QUERY_MIDDLE);
    query.append(second.as_str());
    query.append(QUERY_TAIL);
    let mut headers: Vec<(&'static str, &'static str)> = Vec::new();
    headers.push(("content-type", "application/json"));
    headers.push(("ET-Client-Name", CLIENT_NAME));
    RequestConfig { url: API_URL, headers, query }
}

/// The body of a request: a JSON object whose `query` member is `query`.
pub fn request_body(query: &str) -> (r: String)
    ensures
        r@ == BODY_HEAD@ + json_string(query@) + BODY_TAIL@,
{
    let literal = json_string_literal(query);
    let mut body = String::from_str(BODY_HEAD);
    body.append(literal.as_str());
    body.append(BODY_TAIL);
    body
}

} // verus!
