//! The control operations, and what a request is turned into before one of
//! them runs: the route that its target selects and the address that its
//! query string names.

use crate::endpoint::Endpoint;
use crate::error::{ControlError, ParamError};
use crate::reader::{reading_json, spawn_dsmr_thread, start_reply, ReaderData};
use crate::status::{Actor, ThreadStatus};
use vstd::prelude::*;

verus! {

/// The operation that a request asks for.
#[derive(Clone, Copy, Debug, PartialEq, Eq, Structural)]
pub enum Route {
    /// The status of the sampling task.
    Status,
    /// Start sampling.
    Start,
    /// Stop sampling.
    Stop,
    /// Add a push client.
    Register,
    /// Remove a push client.
    Unregister,
    /// The registered push clients.
    List,
    /// The latest reading: what every other target asks for.
    Latest,
}

/// The route that the request target `uri` selects: the first of the known
/// path prefixes that it starts with, and the latest reading where it starts
/// with none.
pub open spec fn route_of(uri: Seq<char>) -> Route {
    if "/status"@.is_prefix_of(uri) {
        Route::Status
    } else if "/start"@.is_prefix_of(uri) {
        Route::Start
    } else if "/stop"@.is_prefix_of(uri) {
        Route::Stop
    } else if "/register"@.is_prefix_of(uri) {
        Route::Register
    } else if "/unregister"@.is_prefix_of(uri) {
        Route::Unregister
    } else if "/list"@.is_prefix_of(uri) {
        Route::List
    } else {
        Route::Latest
    }
}

/// Whether `text` starts with `prefix`.
fn starts_with(text: &str, prefix: &str) -> (r: bool)
    ensures
        r == prefix@.is_prefix_of(text@),
{
    let n = prefix.unicode_len();
    let m = text.unicode_len();
    if m < n {
        return false;
    }
    let mut i: usize = 0;
    while i < n
        invariant
            i <= n <= m,
            n == prefix@.len(),
            m == text@.len(),
            forall|j: int| 0 <= j < i ==> prefix@[j] == text@[j],
        decreases n - i,
    {
        if prefix.get_char(i) != text.get_char(i) {
            assert(prefix@[i as int] != text@.subrange(0, prefix@.len() as int)[i as int]);
            return false;
        }
        i += 1;
    }
    assert(prefix@ =~= text@.subrange(0, prefix@.len() as int));
    true
}

/// Selects the operation for the request target `uri`.
pub fn route(uri: &str) -> (r: Route)
    ensures
        r == route_of(uri@),
{
    if starts_with(uri, "/status") {
        Route::Status
    } else if starts_with(uri, "/start") {
        Route::Start
    } else if starts_with(uri, "/stop") {
        Route::Stop
    } else if starts_with(uri, "/register") {
        Route::Register
    } else if starts_with(uri, "/unregister") {
        Route::Unregister
    } else if starts_with(uri, "/list") {
        Route::List
    } else {
        Route::Latest
    }
}

/// The latest reading as JSON text: the answer to every request that names
/// no other operation.
pub fn get_state(data: &ReaderData) -> (r: Result<Vec<u8>, ControlError>)
    ensures
        match reading_json(data.reading()) {
            Some(bytes) => r is Ok && r->Ok_0@ == bytes,
            None => r == Err::<Vec<u8>, ControlError>(ControlError::SerializationFailed),
        },
{
    data.latest_reading()
}

/// The status of the sampling task.
pub fn get_latest_data(data: &ReaderData) -> (r: ThreadStatus)
    ensures
        r == data.status(),
{
    data.snapshot_status()
}

/// Starts sampling: refused while a sampling task is alive, and otherwise as
/// [`spawn_dsmr_thread`] does it. A refused start calls `spawn` not at all and
/// changes nothing.
pub fn start_thread<F: FnOnce() -> bool>(data: &mut ReaderData, spawn: F) -> (r: Result<
    (),
    ControlError,
>)
    requires
        call_requires(spawn, ()),
    ensures
        final(data).reading() == old(data).reading(),
        old(data).status().is_active() ==> {
            &&& r == Err::<(), ControlError>(ControlError::AlreadyRunning)
            &&& final(data).status() == old(data).status()
        },
        !old(data).status().is_active() ==> exists|spawned: bool|
            {
                &&& #[trigger] call_ensures(spawn, (), spawned)
                &&& final(data).status() == old(data).status().after_start(spawned)
                &&& r == start_reply(old(data).status(), spawned)
            },
{
    if data.is_sampler_active() {
        return Err(ControlError::AlreadyRunning);
    }
    spawn_dsmr_thread(data, spawn)
}

/// Asks the sampling task to stop. A running task sees the request after its
/// next reading; a failed session is marked stopped at once; a system that
/// is stopping or stopped stays as it is. The call cannot fail.
pub fn stop_thread(data: &mut ReaderData)
    ensures
        final(data).reading() == old(data).reading(),
        final(data).status() == old(data).status().after_stop(),
{
    match data.snapshot_status() {
        ThreadStatus::Running => {
            data.set_status(ThreadStatus::Stopping, Actor::Control);
        },
        ThreadStatus::Failed => {
            data.set_status(ThreadStatus::Stopped, Actor::Control);
        },
        _ => {},
    }
}

/// The name-value pairs that `url::form_urlencoded::parse` yields for a query
/// string, in the order in which it yields them.
pub uninterp spec fn form_pairs(query: Seq<char>) -> Seq<(Seq<char>, Seq<char>)>;

/// `url::form_urlencoded::parse` on the bytes of `query`, its pairs collected
/// as owned strings. The contract only gives the pairs the name
/// [`form_pairs`].
#[verifier::external_body]
fn parse_query(query: &str) -> (pairs: Vec<(String, String)>)
    ensures
        pairs@.len() == form_pairs(query@).len(),
        forall|i: int|
            0 <= i < pairs@.len() ==> {
                &&& (#[trigger] pairs@[i]).0@ == form_pairs(query@)[i].0
                &&& pairs@[i].1@ == form_pairs(query@)[i].1
            },
{
    url::form_urlencoded::parse(query.as_bytes()).into_owned().collect()
}

/// The value of the last pair named `name`, if there is one: where a name
/// occurs more than once, the last occurrence counts.
pub open spec fn last_value(pairs: Seq<(Seq<char>, Seq<char>)>, name: Seq<char>) -> Option<
    Seq<char>,
>
    decreases pairs.len(),
{
    if pairs.len() == 0 {
        None
    } else if pairs.last().0 == name {
        Some(pairs.last().1)
    } else {
        last_value(pairs.drop_last(), name)
    }
}

/// The text `ip:port` of a socket address.
pub open spec fn addr_text(ip: Seq<char>, port: Seq<char>) -> Seq<char> {
    ip + seq![':'] + port
}

/// The text of the socket address that the parameters `pairs` name, or which
/// of the two is missing: the address is asked for first.
pub open spec fn addr_text_in(pairs: Seq<(Seq<char>, Seq<char>)>) -> Result<Seq<char>, ControlError> {
    match last_value(pairs, "ip"@) {
        None => Err(ControlError::InvalidRequestParameters(ParamError::NoIp)),
        Some(ip) => match last_value(pairs, "port"@) {
            None => Err(ControlError::InvalidRequestParameters(ParamError::NoPort)),
            Some(port) => Ok(addr_text(ip, port)),
        },
    }
}

/// The text of a query string, where there is one.
pub open spec fn query_text(query: Option<&str>) -> Option<Seq<char>> {
    match query {
        Some(q) => Some(q@),
        None => None,
    }
}

/// What the query string of a request to register or unregister names: the
/// text of a socket address, or what is missing.
pub open spec fn client_addr_text_of(query: Option<Seq<char>>) -> Result<Seq<char>, ControlError> {
    match query {
        None => Err(ControlError::InvalidRequestParameters(ParamError::NoQuery)),
        Some(q) => addr_text_in(form_pairs(q)),
    }
}

/// The value of the last of `pairs` that is named `name`.
fn lookup<'a>(pairs: &'a Vec<(String, String)>, name: &str) -> (r: Option<&'a String>)
    ensures
        match r {
            Some(value) => last_value(pairs_view(pairs@), name@) == Some(value@),
            None => last_value(pairs_view(pairs@), name@) is None,
        },
{
    let wanted = String::from_str(name);
    let mut i: usize = pairs.len();
    proof {
        assert(pairs_view(pairs@).take(i as int) =~= pairs_view(pairs@));
    }
    while i > 0
        invariant
            i <= pairs.len(),
            wanted@ == name@,
            last_value(pairs_view(pairs@), name@) == last_value(
                pairs_view(pairs@).take(i as int),
                name@,
            ),
        decreases i,
    {
        proof {
            let head = pairs_view(pairs@).take(i as int);
            assert(head.last() == pairs_view(pairs@)[i - 1]);
            assert(head.drop_last() =~= pairs_view(pairs@).take(i - 1));
        }
        if pairs[i - 1].0 == wanted {
            return Some(&pairs[i - 1].1);
        }
        i -= 1;
    }
    proof {
        assert(pairs_view(pairs@).take(0).len() == 0);
    }
    None
}

/// The pairs of strings as pairs of texts.
pub open spec fn pairs_view(pairs: Seq<(String, String)>) -> Seq<(Seq<char>, Seq<char>)> {
    Seq::new(pairs.len(), |i: int| (pairs[i].0@, pairs[i].1@))
}

/// The text of the socket address that the decoded parameters of a query
/// string name: the value of `ip`, a colon, and the value of `port`.
pub fn addr_text_of_pairs(pairs: &Vec<(String, String)>) -> (r: Result<String, ControlError>)
    ensures
        match addr_text_in(pairs_view(pairs@)) {
            Ok(text) => r is Ok && r->Ok_0@ == text,
            Err(e) => r == Err::<String, ControlError>(e),
        },
{
    let ip = match lookup(pairs, "ip") {
        Some(ip) => ip,
        None => {
            return Err(ControlError::InvalidRequestParameters(ParamError::NoIp));
        },
    };
    let port = match lookup(pairs, "port") {
        Some(port) => port,
        None => {
            return Err(ControlError::InvalidRequestParameters(ParamError::NoPort));
        },
    };
    let mut text = ip.clone();
    text.append(":");
    text.append(port.as_str());
    proof {
        reveal_strlit(":");
        assert(":"@ =~= seq![':']);
    }
    Ok(text)
}

/// Reads the text of the socket address that a request to register or
/// unregister names: the `ip` and `port` parameters of its query string,
/// joined by a colon.
pub fn client_addr_text(query: Option<&str>) -> (r: Result<String, ControlError>)
    ensures
        match client_addr_text_of(query_text(query)) {
            Ok(text) => r is Ok && r->Ok_0@ == text,
            Err(e) => r == Err::<String, ControlError>(e),
        },
{
    match query {
        Some(q) => {
            let pairs = parse_query(q);
            proof {
                assert(pairs_view(pairs@) =~= form_pairs(q@));
            }
            addr_text_of_pairs(&pairs)
        },
        None => Err(ControlError::InvalidRequestParameters(ParamError::NoQuery)),
    }
}

/// What a request to register or unregister names, where the address parser
/// makes `parsed` of the text of the address.
pub open spec fn client_addr_of(parsed: Option<Endpoint>) -> Result<Endpoint, ControlError> {
    match parsed {
        Some(addr) => Ok(addr),
        None => Err(ControlError::InvalidRequestParameters(ParamError::BadAddress)),
    }
}

/// Reads the socket address that a request to register or unregister names.
/// The text of the address is taken from the query string as
/// [`client_addr_text`] does it and handed to `parse`, the address parser of
/// the caller; text that the parser refuses is a malformed parameter. Where
/// the query string names no address, `parse` is not called.
pub fn parse_client_addr<P: FnOnce(String) -> Option<Endpoint>>(query: Option<&str>, parse: P) -> (r:
    Result<Endpoint, ControlError>)
    requires
        forall|text: String| call_requires(parse, (text,)),
    ensures
        match client_addr_text_of(query_text(query)) {
            Ok(text) => exists|handed: String, parsed: Option<Endpoint>|
                {
                    &&& handed@ == text
                    &&& #[trigger] call_ensures(parse, (handed,), parsed)
                    &&& r == client_addr_of(parsed)
                },
            Err(e) => r == Err::<Endpoint, ControlError>(e),
        },
{
    match client_addr_text(query) {
        Ok(text) => match parse(text) {
            Some(addr) => Ok(addr),
            None => Err(ControlError::InvalidRequestParameters(ParamError::BadAddress)),
        },
        Err(e) => Err(e),
    }
}

} // verus!
