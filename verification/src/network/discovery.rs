use vstd::prelude::*;
use crate::json::{decimal, decimal_text};

pub mod client;
pub mod server;

pub use client::Prober;
pub use server::DiscoveryServer;

verus! {

/// The UDP port on which servers listen for discovery probes.
pub const DISCOVERY_PORT: u16 = 7878;

/// The address to which a probe is sent: every host of the local network.
pub const BROADCAST_ADDR: &'static str = "255.255.255.255";

/// The four bytes that open every discovery probe: `mdrm` in ASCII.
pub open spec fn magic() -> Seq<u8> {
    seq![0x6du8, 0x64u8, 0x72u8, 0x6du8]
}

/// Whether `datagram` is a discovery probe: whether it begins with the magic bytes.
pub open spec fn is_probe_spec(datagram: Seq<u8>) -> bool {
    datagram.len() >= 4 && datagram.subrange(0, 4) == magic()
}

/// Whether `datagram` is a discovery probe.
pub fn is_probe(datagram: &[u8]) -> (yes: bool)
    ensures
        yes == is_probe_spec(datagram@),
{
    if datagram.len() < 4 {
        return false;
    }
    let yes = datagram[0] == 0x6du8 && datagram[1] == 0x64u8 && datagram[2] == 0x72u8
        && datagram[3] == 0x6du8;
    proof {
        let head = datagram@.subrange(0, 4);
        if yes {
            assert(head =~= magic());
        } else {
            assert(head[0] == datagram@[0] && head[1] == datagram@[1] && head[2] == datagram@[2]
                && head[3] == datagram@[3]);
            assert(magic()[0] == 0x6du8 && magic()[1] == 0x64u8 && magic()[2] == 0x72u8
                && magic()[3] == 0x6du8);
        }
    }
    yes
}

/// The datagram that a prober sends: the magic bytes and nothing else.
pub fn probe() -> (datagram: Vec<u8>)
    ensures
        datagram@ == magic(),
        is_probe_spec(datagram@),
{
    let mut datagram: Vec<u8> = Vec::new();
    datagram.push(0x6du8);
    datagram.push(0x64u8);
    datagram.push(0x72u8);
    datagram.push(0x6du8);
    assert(datagram@ =~= magic());
    assert(datagram@.subrange(0, 4) =~= datagram@);
    datagram
}

/// A server that answered a probe: where its gateway listens, and the name
/// it goes by, if it has one.
#[derive(Debug, Clone)]
pub struct DiscoveredServer {
    pub host: String,
    pub port: u16,
    pub name: Option<String>,
}

/// The mathematical content of a [`DiscoveredServer`].
pub struct ServerView {
    pub host: Seq<char>,
    pub port: u16,
    pub name: Option<Seq<char>>,
}

impl View for DiscoveredServer {
    type V = ServerView;

    open spec fn view(&self) -> ServerView {
        ServerView {
            host: self.host@,
            port: self.port,
            name: match self.name {
                Some(name) => Some(name@),
                None => None,
            },
        }
    }
}

/// The address of a server's gateway: `http://`, the host, a colon, the port.
pub open spec fn url_of(server: ServerView) -> Seq<char> {
    "http://"@ + server.host + ":"@ + decimal_text(server.port as nat)
}

impl DiscoveredServer {
    /// The address of this server's gateway.
    pub fn url(&self) -> (url: String)
        ensures
            url@ == url_of(self@),
    {
        let mut url: String = "http://".to_owned();
        url.append(self.host.as_str());
        url.append(":");
        let port = decimal(self.port as u64);
        url.append(port.as_str());
        url
    }
}

} // verus!
