//! What the push task sends after each wake: one datagram with the latest
//! reading to every registered client.

use crate::appdata::AppData;
use crate::endpoint::Endpoint;
use crate::reader::{reading_json, ReaderData};
use vstd::prelude::*;

verus! {

/// One round of pushes: the payload, serialized once, and the clients that
/// each get one datagram with it.
pub struct Fanout {
    /// The bytes of every datagram of the round.
    pub payload: Vec<u8>,
    /// Where the datagrams go: every client once.
    pub targets: Vec<Endpoint>,
}

/// The address that the push socket binds to: that of the control interface,
/// on port 0, so that the system picks a free port.
pub fn push_socket_addr(appdata: &AppData) -> (r: Endpoint)
    ensures
        r == appdata.bound_to().on_port(0),
{
    appdata.local_addr().with_port(0)
}

/// One round of pushes of `payload`: a datagram for every client that is
/// registered at this moment.
pub fn fanout(payload: Vec<u8>, appdata: &AppData) -> (r: Fanout)
    ensures
        r.payload == payload,
        r.targets@.no_duplicates(),
        r.targets@.to_set() == appdata.clients(),
{
    Fanout { payload, targets: appdata.list_clients() }
}

/// Plans the pushes that follow a wake of the push task: the latest reading
/// as JSON text for every client registered at this moment. Whether a sampling
/// task is alive plays no part: a wake while nothing samples pushes the
/// reading that is held. A round whose reading cannot be serialized is
/// skipped.
pub fn plan_fanout(data: &ReaderData, appdata: &AppData) -> (r: Option<Fanout>)
    ensures
        match reading_json(data.reading()) {
            Some(bytes) => {
                &&& r is Some
                &&& r->Some_0.payload@ == bytes
                &&& r->Some_0.targets@.no_duplicates()
                &&& r->Some_0.targets@.to_set() == appdata.clients()
            },
            None => r is None,
        },
{
    match data.latest_reading() {
        Ok(payload) => Some(fanout(payload, appdata)),
        Err(_) => None,
    }
}

/// Sends one round: one attempt for every target, in the order of the round,
/// through `send`, which says whether the datagram left. A failed attempt is
/// passed over: the targets after it are tried all the same, and the round
/// ends like any other. The answer holds the outcome for each target.
pub fn send_round<S: Fn(&Vec<u8>, Endpoint) -> bool>(round: &Fanout, send: S) -> (sent: Vec<bool>)
    requires
        forall|target: Endpoint| call_requires(send, (&round.payload, target)),
    ensures
        sent@.len() == round.targets@.len(),
        forall|i: int|
            0 <= i < sent@.len() ==> call_ensures(
                send,
                (&round.payload, round.targets@[i]),
                #[trigger] sent@[i],
            ),
{
    let mut sent: Vec<bool> = Vec::new();
    let mut i: usize = 0;
    while i < round.targets.len()
        invariant
            i <= round.targets.len(),
            sent@.len() == i,
            forall|target: Endpoint| call_requires(send, (&round.payload, target)),
            forall|j: int|
                0 <= j < i ==> call_ensures(
                    send,
                    (&round.payload, round.targets@[j]),
                    #[trigger] sent@[j],
                ),
        decreases round.targets.len() - i,
    {
        let left = send(&round.payload, round.targets[i]);
        sent.push(left);
        i += 1;
    }
    sent
}

} // verus!
