use vstd::prelude::*;
use crate::json::{field_of, json_document, json_string_literal, parse_document, quote, read_field, Field, JsonField};

verus! {

/// Reply to the "server info" request.
#[derive(Debug)]
pub struct ServerInfoResponse {
    pub server_id: String,
}

/// Reply to the "start session" request.
#[derive(Debug)]
pub struct SessionStartResponse {
    pub client_id: String,
    pub server_id: String,
}

/// A state change that the gateway announces to every subscribed client.
#[derive(Debug)]
pub enum NetworkEvent {
    StartSession { session_id: String },
    EndSession { session_id: String },
    Ping,
    Pong,
}

/// The mathematical content of a [`NetworkEvent`]: the same variants, with
/// each identifier as the sequence of its characters.
pub enum EventView {
    StartSession { session_id: Seq<char> },
    EndSession { session_id: Seq<char> },
    Ping,
    Pong,
}

impl View for NetworkEvent {
    type V = EventView;

    open spec fn view(&self) -> EventView {
        match *self {
            NetworkEvent::StartSession { session_id } => EventView::StartSession {
                session_id: session_id@,
            },
            NetworkEvent::EndSession { session_id } => EventView::EndSession {
                session_id: session_id@,
            },
            NetworkEvent::Ping => EventView::Ping,
            NetworkEvent::Pong => EventView::Pong,
        }
    }
}

impl Clone for NetworkEvent {
    fn clone(&self) -> (copy: Self)
        ensures
            copy@ == self@,
    {
        match self {
            NetworkEvent::StartSession { session_id } => NetworkEvent::StartSession {
                session_id: session_id.clone(),
            },
            NetworkEvent::EndSession { session_id } => NetworkEvent::EndSession {
                session_id: session_id.clone(),
            },
            NetworkEvent::Ping => NetworkEvent::Ping,
            NetworkEvent::Pong => NetworkEvent::Pong,
        }
    }
}

impl PartialEq for NetworkEvent {
    fn eq(&self, other: &Self) -> (same: bool) {
        match self {
            NetworkEvent::StartSession { session_id: a } => match other {
                NetworkEvent::StartSession { session_id: b } => *a == *b,
                _ => false,
            },
            NetworkEvent::EndSession { session_id: a } => match other {
                NetworkEvent::EndSession { session_id: b } => *a == *b,
                _ => false,
            },
            NetworkEvent::Ping => match other {
                NetworkEvent::Ping => true,
                _ => false,
            },
            NetworkEvent::Pong => match other {
                NetworkEvent::Pong => true,
                _ => false,
            },
        }
    }
}

impl vstd::std_specs::cmp::PartialEqSpecImpl for NetworkEvent {
    open spec fn obeys_eq_spec() -> bool {
        true
    }

    open spec fn eq_spec(&self, other: &Self) -> bool {
        self@ == other@
    }
}

/// The JSON text of an event: an object whose `type` names the variant in
/// snake case, followed for a session event by its `session_id`.
pub open spec fn event_json(event: EventView) -> Seq<char> {
    match event {
        EventView::StartSession { session_id } => "{\"type\":\"start_session\",\"session_id\":"@
            + json_string_literal(session_id) + "}"@,
        EventView::EndSession { session_id } => "{\"type\":\"end_session\",\"session_id\":"@
            + json_string_literal(session_id) + "}"@,
        EventView::Ping => "{\"type\":\"ping\"}"@,
        EventView::Pong => "{\"type\":\"pong\"}"@,
    }
}

/// The event that an object with these `type` and `session_id` members
/// stands for, if it stands for one: the type must be one of the four names,
/// and a session event must carry its id as a string.
pub open spec fn event_of_fields(kind: Field, session_id: Field) -> Option<EventView> {
    match kind {
        Field::Text(name) => if name == "start_session"@ {
            match session_id {
                Field::Text(id) => Some(EventView::StartSession { session_id: id }),
                _ => None,
            }
        } else if name == "end_session"@ {
            match session_id {
                Field::Text(id) => Some(EventView::EndSession { session_id: id }),
                _ => None,
            }
        } else if name == "ping"@ {
            Some(EventView::Ping)
        } else if name == "pong"@ {
            Some(EventView::Pong)
        } else {
            None
        },
        _ => None,
    }
}

/// The event that the JSON text `text` stands for, if it stands for one.
pub open spec fn event_of_json(text: Seq<char>) -> Option<EventView> {
    match json_document(text) {
        Some(doc) => event_of_fields(field_of(doc, "type"@), field_of(doc, "session_id"@)),
        None => None,
    }
}

fn session_frame(opening: &str, session_id: &String) -> (text: String)
    ensures
        text@ == opening@ + json_string_literal(session_id@) + "}"@,
{
    let mut text: String = opening.to_owned();
    let quoted = quote(session_id.as_str());
    text.append(quoted.as_str());
    text.append("}");
    text
}

impl NetworkEvent {
    /// Writes the event as one line of JSON, as it goes out on an event stream.
    pub fn to_json(&self) -> (text: String)
        ensures
            text@ == event_json(self@),
    {
        match self {
            NetworkEvent::StartSession { session_id } => session_frame(
                "{\"type\":\"start_session\",\"session_id\":",
                session_id,
            ),
            NetworkEvent::EndSession { session_id } => session_frame(
                "{\"type\":\"end_session\",\"session_id\":",
                session_id,
            ),
            NetworkEvent::Ping => "{\"type\":\"ping\"}".to_owned(),
            NetworkEvent::Pong => "{\"type\":\"pong\"}".to_owned(),
        }
    }

    /// The event for the `type` and `session_id` members of a JSON object.
    pub fn from_fields(kind: JsonField, session_id: JsonField) -> (event: Option<NetworkEvent>)
        ensures
            match event {
                Some(e) => event_of_fields(kind@, session_id@) == Some(e@),
                None => event_of_fields(kind@, session_id@) is None,
            },
    {
        match kind {
            JsonField::Text(name) => {
                let start: String = "start_session".to_owned();
                let end: String = "end_session".to_owned();
                let ping: String = "ping".to_owned();
                let pong: String = "pong".to_owned();
                if name == start {
                    match session_id {
                        JsonField::Text(id) => Some(NetworkEvent::StartSession { session_id: id }),
                        _ => None,
                    }
                } else if name == end {
                    match session_id {
                        JsonField::Text(id) => Some(NetworkEvent::EndSession { session_id: id }),
                        _ => None,
                    }
                } else if name == ping {
                    Some(NetworkEvent::Ping)
                } else if name == pong {
                    Some(NetworkEvent::Pong)
                } else {
                    None
                }
            },
            _ => None,
        }
    }

    /// Reads an event from the JSON text of one stream frame. Text that is
    /// no JSON, or no event, gives `None`.
    pub fn from_json(text: &str) -> (event: Option<NetworkEvent>)
        ensures
            match event {
                Some(e) => event_of_json(text@) == Some(e@),
                None => event_of_json(text@) is None,
            },
    {
        match parse_document(text) {
            Some(doc) => {
                let kind = read_field(&doc, "type");
                let session_id = read_field(&doc, "session_id");
                NetworkEvent::from_fields(kind, session_id)
            },
            None => None,
        }
    }
}

} // verus!
