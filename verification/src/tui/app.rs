use vstd::prelude::*;
use crate::network::event::{EventView, NetworkEvent};

verus! {

/// What the client's screen shows: the message log, the line being typed,
/// and how far the log is scrolled back.
pub struct App {
    pub should_quit: bool,
    pub messages: Vec<String>,
    pub input: String,
    pub scroll_offset: usize,
}

/// The lines of `messages`, each by its characters.
pub open spec fn line_views(messages: Seq<String>) -> Seq<Seq<char>> {
    messages.map_values(|line: String| line@)
}

/// The line that the log shows for `event`.
pub open spec fn message_for(event: EventView) -> Seq<char> {
    match event {
        EventView::StartSession { session_id } => "Session started: "@ + session_id,
        EventView::EndSession { session_id } => "Session ended: "@ + session_id,
        EventView::Ping => "[ping received]"@,
        EventView::Pong => "[pong received]"@,
    }
}

/// `String::push`: appends one character.
///
/// Trusted: the contract claims what the standard library documents, that
/// the text afterwards is the text before followed by `c`.
#[verifier::external_body]
fn push_char(text: &mut String, c: char)
    ensures
        final(text)@ == old(text)@.push(c),
{
    text.push(c)
}

/// `String::pop`: removes the last character and returns it; `None`, and no
/// change, for an empty text.
///
/// Trusted: the contract claims what the standard library documents.
#[verifier::external_body]
fn pop_char(text: &mut String) -> (last: Option<char>)
    ensures
        match last {
            Some(c) => old(text)@.len() > 0 && c == old(text)@.last() && final(text)@ == old(
                text,
            )@.drop_last(),
            None => old(text)@.len() == 0 && final(text)@ == old(text)@,
        },
{
    text.pop()
}

impl App {
    /// The screen at launch: two lines of welcome, nothing typed, not scrolled.
    pub fn new() -> (app: Self)
        ensures
            !app.should_quit,
            line_views(app.messages@) == seq![
                "Welcome to mudroom."@,
                "Type commands and press Enter."@,
            ],
            app.input@ == Seq::<char>::empty(),
            app.scroll_offset == 0,
    {
        let mut messages: Vec<String> = Vec::new();
        messages.push("Welcome to mudroom.".to_owned());
        messages.push("Type commands and press Enter.".to_owned());
        assert(line_views(messages@) =~= seq![
            "Welcome to mudroom."@,
            "Type commands and press Enter."@,
        ]);
        Self { should_quit: false, messages, input: String::new(), scroll_offset: 0 }
    }

    /// Scrolls the log back by one line.
    pub fn scroll_up(&mut self)
        requires
            old(self).scroll_offset < usize::MAX,
        ensures
            final(self).scroll_offset == old(self).scroll_offset + 1,
            final(self).should_quit == old(self).should_quit,
            final(self).messages == old(self).messages,
            final(self).input == old(self).input,
    {
        self.scroll_offset += 1;
    }

    /// Scrolls the log forward by one line, down to the newest line.
    pub fn scroll_down(&mut self)
        ensures
            final(self).scroll_offset == if old(self).scroll_offset == 0 {
                0
            } else {
                old(self).scroll_offset - 1
            },
            final(self).should_quit == old(self).should_quit,
            final(self).messages == old(self).messages,
            final(self).input == old(self).input,
    {
        if self.scroll_offset > 0 {
            self.scroll_offset -= 1;
        }
    }

    /// Adds the line for `event` at the end of the log.
    pub fn handle_network_event(&mut self, event: NetworkEvent)
        ensures
            line_views(final(self).messages@) == line_views(old(self).messages@).push(
                message_for(event@),
            ),
            final(self).should_quit == old(self).should_quit,
            final(self).input == old(self).input,
            final(self).scroll_offset == old(self).scroll_offset,
    {
        let line: String = match event {
            NetworkEvent::StartSession { session_id } => {
                let mut line: String = "Session started: ".to_owned();
                line.append(session_id.as_str());
                line
            },
            NetworkEvent::EndSession { session_id } => {
                let mut line: String = "Session ended: ".to_owned();
                line.append(session_id.as_str());
                line
            },
            NetworkEvent::Ping => "[ping received]".to_owned(),
            NetworkEvent::Pong => "[pong received]".to_owned(),
        };
        let ghost before = self.messages@;
        self.messages.push(line);
        assert(line_views(self.messages@) =~= line_views(before).push(line@));
    }
}

impl App {
    /// Types `c` at the end of the input line.
    pub fn type_char(&mut self, c: char)
        ensures
            final(self).input@ == old(self).input@.push(c),
            final(self).should_quit == old(self).should_quit,
            final(self).messages == old(self).messages,
            final(self).scroll_offset == old(self).scroll_offset,
    {
        push_char(&mut self.input, c);
    }

    /// Deletes the last character of the input line, if it has one.
    pub fn backspace(&mut self)
        ensures
            final(self).input@ == if old(self).input@.len() > 0 {
                old(self).input@.drop_last()
            } else {
                old(self).input@
            },
            final(self).should_quit == old(self).should_quit,
            final(self).messages == old(self).messages,
            final(self).scroll_offset == old(self).scroll_offset,
    {
        let _ = pop_char(&mut self.input);
    }

    /// Enters the input line: it joins the log as its newest line, the input
    /// line is empty again, and the log scrolls to its newest line.
    pub fn submit(&mut self)
        ensures
            line_views(final(self).messages@) == line_views(old(self).messages@).push(
                old(self).input@,
            ),
            final(self).input@ == Seq::<char>::empty(),
            final(self).scroll_offset == 0,
            final(self).should_quit == old(self).should_quit,
    {
        let mut line: String = String::new();
        core::mem::swap(&mut self.input, &mut line);
        let ghost before = self.messages@;
        self.messages.push(line);
        assert(line_views(self.messages@) =~= line_views(before).push(line@));
        self.scroll_offset = 0;
    }

    /// Asks the screen to close.
    pub fn quit(&mut self)
        ensures
            final(self).should_quit,
            final(self).messages == old(self).messages,
            final(self).input == old(self).input,
            final(self).scroll_offset == old(self).scroll_offset,
    {
        self.should_quit = true;
    }
}

impl Default for App {
    fn default() -> (app: Self)
        ensures
            !app.should_quit,
            app.messages@.len() == 2,
            app.input@ == Seq::<char>::empty(),
            app.scroll_offset == 0,
    {
        let app = App::new();
        assert(line_views(app.messages@).len() == 2);
        app
    }
}

} // verus!
