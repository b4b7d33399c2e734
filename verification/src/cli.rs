use vstd::prelude::*;

verus! {

/// What the command line asked for.
#[derive(Debug)]
pub struct Cli {
    pub command: Option<Commands>,
}

/// The two ways to launch the program.
#[derive(Debug)]
pub enum Commands {
    /// Launch in client mode, with the server's address where discovery is
    /// to be skipped.
    Client { url: Option<String> },
    /// Launch in server mode, with the server's name where it has one.
    Server { name: Option<String> },
}

/// What the program does after it has read its command line.
#[derive(Debug)]
pub enum Launch {
    /// Serve sessions under this name.
    Serve { name: Option<String> },
    /// Join the server at this address.
    Connect { url: String },
    /// Look for servers on the local network and let the user choose.
    Discover,
}

impl PartialEq for Commands {
    fn eq(&self, other: &Self) -> (same: bool) {
        match self {
            Commands::Client { url: a } => match other {
                Commands::Client { url: b } => same_text(a, b),
                _ => false,
            },
            Commands::Server { name: a } => match other {
                Commands::Server { name: b } => same_text(a, b),
                _ => false,
            },
        }
    }
}

impl vstd::std_specs::cmp::PartialEqSpecImpl for Commands {
    open spec fn obeys_eq_spec() -> bool {
        true
    }

    open spec fn eq_spec(&self, other: &Self) -> bool {
        match *self {
            Commands::Client { url: a } => match *other {
                Commands::Client { url: b } => text_view(a) == text_view(b),
                _ => false,
            },
            Commands::Server { name: a } => match *other {
                Commands::Server { name: b } => text_view(a) == text_view(b),
                _ => false,
            },
        }
    }
}

/// An optional text, by its characters.
pub open spec fn text_view(text: Option<String>) -> Option<Seq<char>> {
    match text {
        Some(text) => Some(text@),
        None => None,
    }
}

fn same_text(a: &Option<String>, b: &Option<String>) -> (same: bool)
    ensures
        same == (text_view(*a) == text_view(*b)),
{
    match a {
        Some(x) => match b {
            Some(y) => *x == *y,
            None => false,
        },
        None => b.is_none(),
    }
}

impl Cli {
    /// What to do for this command line: a server command serves; a client
    /// command with an address connects to it; a client command without
    /// one, and no command at all, start with discovery.
    pub fn launch(self) -> (launch: Launch)
        ensures
            launch == match self.command {
                Some(Commands::Server { name }) => Launch::Serve { name },
                Some(Commands::Client { url: Some(url) }) => Launch::Connect { url },
                Some(Commands::Client { url: None }) => Launch::Discover,
                None => Launch::Discover,
            },
    {
        match self.command {
            Some(Commands::Server { name }) => Launch::Serve { name },
            Some(Commands::Client { url: Some(url) }) => Launch::Connect { url },
            Some(Commands::Client { url: None }) => Launch::Discover,
            None => Launch::Discover,
        }
    }
}

} // verus!
