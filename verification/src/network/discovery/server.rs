use vstd::prelude::*;
use crate::json::{decimal, decimal_text, json_string_literal, quote};
use crate::network::discovery::{is_probe, is_probe_spec};

verus! {

/// The responder's side of discovery: it tells whoever probes where this
/// server's gateway listens and what the server is called.
pub struct DiscoveryServer {
    port: u16,
    name: Option<String>,
}

/// The text of a discovery response: a JSON object with the `host` under
/// which the prober reaches the server, the server's `name` where it has one,
/// and the `port` of its gateway.
pub open spec fn response_json(host: Seq<char>, port: u16, name: Option<Seq<char>>) -> Seq<char> {
    match name {
        Some(name) => "{\"host\":"@ + json_string_literal(host) + ",\"name\":"@
            + json_string_literal(name) + ",\"port\":"@ + decimal_text(port as nat) + "}"@,
        None => "{\"host\":"@ + json_string_literal(host) + ",\"port\":"@ + decimal_text(
            port as nat,
        ) + "}"@,
    }
}

impl DiscoveryServer {
    /// The port of the gateway that this responder announces.
    pub closed spec fn port(&self) -> u16 {
        self.port
    }

    /// The name that this responder announces, if any.
    pub closed spec fn name(&self) -> Option<Seq<char>> {
        match self.name {
            Some(name) => Some(name@),
            None => None,
        }
    }

    /// A responder for the gateway on `http_port` of the server called `name`.
    pub fn new(http_port: u16, name: Option<String>) -> (server: Self)
        ensures
            server.port() == http_port,
            server.name() == match name {
                Some(n) => Some(n@),
                None => None,
            },
    {
        Self { port: http_port, name }
    }

    /// The answer to `datagram`, which came from `peer_host`: for a probe,
    /// the response that tells the peer this server's port and name, under the
    /// address at which the peer sees it; for anything else, none.
    pub fn respond(&self, datagram: &[u8], peer_host: &str) -> (response: Option<String>)
        ensures
            match response {
                Some(text) => is_probe_spec(datagram@) && text@ == response_json(
                    peer_host@,
                    self.port(),
                    self.name(),
                ),
                None => !is_probe_spec(datagram@),
            },
    {
        if !is_probe(datagram) {
            return None;
        }
        let mut text: String = "{\"host\":".to_owned();
        let host = quote(peer_host);
        text.append(host.as_str());
        match &self.name {
            Some(name) => {
                text.append(",\"name\":");
                let quoted = quote(name.as_str());
                text.append(quoted.as_str());
            },
            None => {},
        }
        text.append(",\"port\":");
        let port = decimal(self.port as u64);
        text.append(port.as_str());
        text.append("}");
        proof {
            assert(text@ =~= response_json(peer_host@, self.port(), self.name()));
        }
        Some(text)
    }
}

} // verus!
