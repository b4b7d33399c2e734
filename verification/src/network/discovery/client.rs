use vstd::prelude::*;
use vstd::utf8::{decode_utf8, encode_utf8, encode_utf8_decode_utf8, valid_utf8};
use crate::json::{field_of, json_document, parse_document, read_field, Field, JsonField};
use crate::network::discovery::ServerView;

pub use crate::network::discovery::DiscoveredServer;

verus! {

/// The server that an object with these `host`, `port` and `name` members
/// describes, if it describes one: the host must be a string, the port a
/// number from 0 to 65535, and the name a string, `null` or absent.
pub open spec fn server_of_fields(host: Field, port: Field, name: Field) -> Option<ServerView> {
    match (host, port) {
        (Field::Text(host), Field::Unsigned(port)) => if port <= u16::MAX {
            match name {
                Field::Text(name) => Some(ServerView { host, port: port as u16, name: Some(name) }),
                Field::Missing | Field::Null => Some(ServerView { host, port: port as u16, name: None }),
                _ => None,
            }
        } else {
            None
        },
        _ => None,
    }
}

/// The server that the datagram describes, if it describes one: the
/// datagram must be UTF-8 text, the text a JSON document, and the document an
/// object of the shape that [`server_of_fields`] accepts.
pub open spec fn response_of(datagram: Seq<u8>) -> Option<ServerView> {
    if valid_utf8(datagram) {
        match json_document(decode_utf8(datagram)) {
            Some(doc) => server_of_fields(
                field_of(doc, "host"@),
                field_of(doc, "port"@),
                field_of(doc, "name"@),
            ),
            None => None,
        }
    } else {
        None
    }
}

/// `core::str::from_utf8`: the bytes as text, where they are UTF-8.
///
/// Trusted: the contract claims that the call succeeds exactly on valid
/// UTF-8, and that the text then consists of the very bytes it was given.
#[verifier::external_body]
pub(crate) fn text_of(bytes: &[u8]) -> (text: Option<&str>)
    ensures
        match text {
            Some(t) => valid_utf8(bytes@) && encode_utf8(t@) == bytes@,
            None => !valid_utf8(bytes@),
        },
{
    core::str::from_utf8(bytes).ok()
}

/// The server for the `host`, `port` and `name` members of a JSON object.
pub fn server_from_fields(host: JsonField, port: JsonField, name: JsonField) -> (server: Option<
    DiscoveredServer,
>)
    ensures
        match server {
            Some(s) => server_of_fields(host@, port@, name@) == Some(s@),
            None => server_of_fields(host@, port@, name@) is None,
        },
{
    let host = match host {
        JsonField::Text(host) => host,
        _ => {
            return None;
        },
    };
    let port: u16 = match port {
        JsonField::Unsigned(port) => if port <= 65535 {
            port as u16
        } else {
            return None;
        },
        _ => {
            return None;
        },
    };
    match name {
        JsonField::Text(name) => Some(DiscoveredServer { host, port, name: Some(name) }),
        JsonField::Missing => Some(DiscoveredServer { host, port, name: None }),
        JsonField::Null => Some(DiscoveredServer { host, port, name: None }),
        _ => None,
    }
}

/// Reads a discovery response. A datagram that is no well-formed response
/// gives `None`: it is noise, not an error.
pub fn parse_response(datagram: &[u8]) -> (server: Option<DiscoveredServer>)
    ensures
        match server {
            Some(s) => response_of(datagram@) == Some(s@),
            None => response_of(datagram@) is None,
        },
{
    let text = match text_of(datagram) {
        Some(text) => text,
        None => {
            return None;
        },
    };
    proof {
        encode_utf8_decode_utf8(text@);
    }
    match parse_document(text) {
        Some(doc) => {
            let host = read_field(&doc, "host");
            let port = read_field(&doc, "port");
            let name = read_field(&doc, "name");
            server_from_fields(host, port, name)
        },
        None => None,
    }
}

/// The servers of `servers`, each by its content.
pub open spec fn server_views(servers: Seq<DiscoveredServer>) -> Seq<ServerView> {
    servers.map_values(|server: DiscoveredServer| server@)
}

/// What `found` becomes when `datagram` arrives: a well-formed response
/// joins at the end, even where the same server answered before; anything
/// else changes nothing.
pub open spec fn after_datagram(found: Seq<ServerView>, datagram: Seq<u8>) -> Seq<ServerView> {
    match response_of(datagram) {
        Some(server) => found.push(server),
        None => found,
    }
}

/// One round of discovery, seen from the prober: the servers that have
/// answered so far, in the order of their answers.
pub struct Prober {
    servers: Vec<DiscoveredServer>,
}

impl View for Prober {
    type V = Seq<ServerView>;

    closed spec fn view(&self) -> Seq<ServerView> {
        server_views(self.servers@)
    }
}

impl Prober {
    /// A round in which nobody has answered yet.
    pub fn new() -> (prober: Self)
        ensures
            prober@ == Seq::<ServerView>::empty(),
    {
        let prober = Prober { servers: Vec::new() };
        assert(prober@ =~= Seq::<ServerView>::empty());
        prober
    }

    /// Takes in one datagram that arrived before the deadline. Returns
    /// whether it was a well-formed response.
    pub fn on_datagram(&mut self, datagram: &[u8]) -> (accepted: bool)
        ensures
            accepted == (response_of(datagram@) is Some),
            final(self)@ == after_datagram(old(self)@, datagram@),
    {
        match parse_response(datagram) {
            Some(server) => {
                let ghost before = self.servers@;
                self.servers.push(server);
                assert(server_views(self.servers@) =~= server_views(before).push(server@));
                true
            },
            None => false,
        }
    }

    /// Ends the round at the deadline: the servers that answered, in the
    /// order of their answers; none where nobody answered.
    pub fn finish(self) -> (servers: Vec<DiscoveredServer>)
        ensures
            server_views(servers@) == self@,
    {
        self.servers
    }
}

} // verus!
