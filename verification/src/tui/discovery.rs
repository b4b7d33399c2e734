use vstd::prelude::*;
use crate::network::discovery::client::server_views;
use crate::network::discovery::{url_of, DiscoveredServer, ServerView};

verus! {

/// What the discovery screen shows: the servers found so far, the cursor
/// on one of them, and whether the search is still on.
pub struct DiscoveryApp {
    servers: Vec<DiscoveredServer>,
    cursor: usize,
    discovering: bool,
    spinner_tick: u8,
    should_quit: bool,
    selected_url: Option<String>,
}

/// How many frames the spinner of the discovery screen has.
pub const SPINNER_FRAMES: u8 = 10;

/// The mathematical content of a [`DiscoveryApp`].
pub struct DiscoveryView {
    pub servers: Seq<ServerView>,
    pub cursor: nat,
    pub discovering: bool,
    pub spinner_tick: u8,
    pub should_quit: bool,
    pub selected_url: Option<Seq<char>>,
}

impl View for DiscoveryApp {
    type V = DiscoveryView;

    closed spec fn view(&self) -> DiscoveryView {
        DiscoveryView {
            servers: server_views(self.servers@),
            cursor: self.cursor as nat,
            discovering: self.discovering,
            spinner_tick: self.spinner_tick,
            should_quit: self.should_quit,
            selected_url: match self.selected_url {
                Some(url) => Some(url@),
                None => None,
            },
        }
    }
}

impl DiscoveryApp {
    /// The screen at the start of a search: nothing found, nothing chosen.
    pub fn new() -> (app: Self)
        ensures
            app@ == (DiscoveryView {
                servers: Seq::empty(),
                cursor: 0,
                discovering: true,
                spinner_tick: 0,
                should_quit: false,
                selected_url: None,
            }),
    {
        let app = Self {
            servers: Vec::new(),
            cursor: 0,
            discovering: true,
            spinner_tick: 0,
            should_quit: false,
            selected_url: None,
        };
        assert(app@.servers =~= Seq::<ServerView>::empty());
        app
    }

    /// Moves the cursor up by one server, unless it is on the first.
    pub fn cursor_up(&mut self)
        ensures
            final(self)@ == (DiscoveryView {
                cursor: if old(self)@.cursor > 0 {
                    (old(self)@.cursor - 1) as nat
                } else {
                    0
                },
                ..old(self)@
            }),
    {
        if self.cursor > 0 {
            self.cursor -= 1;
        }
    }

    /// Moves the cursor down by one server, unless it is on the last.
    pub fn cursor_down(&mut self)
        ensures
            final(self)@ == (DiscoveryView {
                cursor: if old(self)@.cursor + 1 < old(self)@.servers.len() {
                    old(self)@.cursor + 1
                } else {
                    old(self)@.cursor
                },
                ..old(self)@
            }),
    {
        if !self.servers.is_empty() && self.cursor < self.servers.len() - 1 {
            self.cursor += 1;
        }
    }

    /// Chooses the server under the cursor, if there is one: its address is
    /// the outcome of the screen, which then closes.
    pub fn select(&mut self)
        ensures
            final(self)@ == if old(self)@.cursor < old(self)@.servers.len() {
                DiscoveryView {
                    selected_url: Some(url_of(old(self)@.servers[old(self)@.cursor as int])),
                    should_quit: true,
                    ..old(self)@
                }
            } else {
                old(self)@
            },
    {
        if self.cursor < self.servers.len() {
            let url = self.servers[self.cursor].url();
            self.selected_url = Some(url);
            self.should_quit = true;
        }
    }

    /// Adds a server that the search has found.
    pub fn add_server(&mut self, server: DiscoveredServer)
        ensures
            final(self)@ == (DiscoveryView {
                servers: old(self)@.servers.push(server@),
                ..old(self)@
            }),
    {
        let ghost before = self.servers@;
        self.servers.push(server);
        assert(server_views(self.servers@) =~= server_views(before).push(server@));
    }

    /// Records that the search is over.
    pub fn discovery_finished(&mut self)
        ensures
            final(self)@ == (DiscoveryView { discovering: false, ..old(self)@ }),
    {
        self.discovering = false;
    }

    /// Advances the spinner by one frame; after the last count comes the first.
    pub fn tick(&mut self)
        ensures
            final(self)@ == (DiscoveryView {
                spinner_tick: if old(self)@.spinner_tick == u8::MAX {
                    0
                } else {
                    (old(self)@.spinner_tick + 1) as u8
                },
                ..old(self)@
            }),
    {
        self.spinner_tick = if self.spinner_tick == u8::MAX {
            0
        } else {
            self.spinner_tick + 1
        };
    }

    /// Which of the ten frames of the spinner is to be shown.
    pub fn spinner_frame(&self) -> (frame: usize)
        ensures
            frame == self@.spinner_tick % SPINNER_FRAMES,
    {
        (self.spinner_tick % SPINNER_FRAMES) as usize
    }

    /// Closes the screen without a choice.
    pub fn quit(&mut self)
        ensures
            final(self)@ == (DiscoveryView { should_quit: true, ..old(self)@ }),
    {
        self.should_quit = true;
    }

    /// Whether the screen is to close.
    pub fn should_quit(&self) -> (quit: bool)
        ensures
            quit == self@.should_quit,
    {
        self.should_quit
    }

    /// Whether the search is still on.
    pub fn is_discovering(&self) -> (discovering: bool)
        ensures
            discovering == self@.discovering,
    {
        self.discovering
    }

    /// The position of the cursor.
    pub fn cursor(&self) -> (cursor: usize)
        ensures
            cursor == self@.cursor,
    {
        self.cursor
    }

    /// The count of spinner frames shown so far, modulo 256.
    pub fn spinner_tick(&self) -> (count: u8)
        ensures
            count == self@.spinner_tick,
    {
        self.spinner_tick
    }

    /// The servers found so far.
    pub fn servers(&self) -> (servers: &Vec<DiscoveredServer>)
        ensures
            server_views(servers@) == self@.servers,
    {
        &self.servers
    }

    /// The outcome of the screen: the address of the chosen server, if one
    /// was chosen.
    pub fn into_selected_url(self) -> (url: Option<String>)
        ensures
            match url {
                Some(u) => self@.selected_url == Some(u@),
                None => self@.selected_url is None,
            },
    {
        self.selected_url
    }
}

} // verus!
