//! The client's side of the gateway: where each request goes.
use vstd::prelude::*;

verus! {

/// The address of the request `path` at the server `base`.
pub open spec fn endpoint(base: Seq<char>, path: Seq<char>) -> Seq<char> {
    base + path
}

fn at(base: &str, path: &str) -> (url: String)
    ensures
        url@ == endpoint(base@, path@),
{
    let mut url: String = base.to_owned();
    url.append(path);
    url
}

/// Where "get server info" goes.
pub fn server_info_url(base: &str) -> (url: String)
    ensures
        url@ == endpoint(base@, "/server/info"@),
{
    at(base, "/server/info")
}

/// Where "subscribe to events" goes.
pub fn events_url(base: &str) -> (url: String)
    ensures
        url@ == endpoint(base@, "/events"@),
{
    at(base, "/events")
}

/// Where "ping" goes.
pub fn ping_url(base: &str) -> (url: String)
    ensures
        url@ == endpoint(base@, "/ping"@),
{
    at(base, "/ping")
}

/// Where "start session" goes.
pub fn session_start_url(base: &str) -> (url: String)
    ensures
        url@ == endpoint(base@, "/session/start"@),
{
    at(base, "/session/start")
}

/// Where "end session" goes.
pub fn session_end_url(base: &str) -> (url: String)
    ensures
        url@ == endpoint(base@, "/session/end"@),
{
    at(base, "/session/end")
}

/// How long a client rests between two pings, in time units.
pub const PING_INTERVAL: u64 = 10;

} // verus!
