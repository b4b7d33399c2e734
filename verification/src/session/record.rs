//! The stored form of an identity: a JSON object with an `id` and a `name`.
use vstd::prelude::*;
use crate::json::{field_of, json_document, json_string_literal, parse_document, quote, read_field, Field, JsonField};

verus! {

/// The text of a stored identity: a JSON object on four lines, indented by
/// two spaces, with the `id` and then the `name`, which is `null` where the
/// identity has none.
pub open spec fn record_json(id: Seq<char>, name: Option<Seq<char>>) -> Seq<char> {
    "{\n  \"id\": "@ + json_string_literal(id) + ",\n  \"name\": "@ + (match name {
        Some(name) => json_string_literal(name),
        None => "null"@,
    }) + "\n}"@
}

/// The identity that an object with these `id` and `name` members holds, if
/// it holds one: the id must be a string, and the name a string, `null` or
/// absent.
pub open spec fn record_of_fields(id: Field, name: Field) -> Option<(Seq<char>, Option<Seq<char>>)> {
    match id {
        Field::Text(id) => match name {
            Field::Text(name) => Some((id, Some(name))),
            Field::Missing | Field::Null => Some((id, None)),
            _ => None,
        },
        _ => None,
    }
}

/// The identity that the JSON text `text` holds, if it holds one.
pub open spec fn record_of_json(text: Seq<char>) -> Option<(Seq<char>, Option<Seq<char>>)> {
    match json_document(text) {
        Some(doc) => record_of_fields(field_of(doc, "id"@), field_of(doc, "name"@)),
        None => None,
    }
}

/// The name of an identity, by its characters.
pub open spec fn name_view(name: Option<String>) -> Option<Seq<char>> {
    match name {
        Some(name) => Some(name@),
        None => None,
    }
}

/// Writes an identity as it is stored.
pub fn write_record(id: &String, name: &Option<String>) -> (text: String)
    ensures
        text@ == record_json(id@, name_view(*name)),
{
    let mut text: String = "{\n  \"id\": ".to_owned();
    let quoted_id = quote(id.as_str());
    text.append(quoted_id.as_str());
    text.append(",\n  \"name\": ");
    match name {
        Some(name) => {
            let quoted_name = quote(name.as_str());
            text.append(quoted_name.as_str());
        },
        None => {
            text.append("null");
        },
    }
    text.append("\n}");
    proof {
        assert(text@ =~= record_json(id@, name_view(*name)));
    }
    text
}

/// The identity for the `id` and `name` members of a JSON object.
pub fn record_from_fields(id: JsonField, name: JsonField) -> (record: Option<(String, Option<String>)>)
    ensures
        match record {
            Some((id_read, name_read)) => record_of_fields(id@, name@) == Some(
                (id_read@, name_view(name_read)),
            ),
            None => record_of_fields(id@, name@) is None,
        },
{
    match id {
        JsonField::Text(id) => match name {
            JsonField::Text(name) => Some((id, Some(name))),
            JsonField::Missing => Some((id, None)),
            JsonField::Null => Some((id, None)),
            _ => None,
        },
        _ => None,
    }
}

/// Reads a stored identity.
pub fn read_record(text: &str) -> (record: Option<(String, Option<String>)>)
    ensures
        match record {
            Some((id, name)) => record_of_json(text@) == Some((id@, name_view(name))),
            None => record_of_json(text@) is None,
        },
{
    match parse_document(text) {
        Some(doc) => {
            let id = read_field(&doc, "id");
            let name = read_field(&doc, "name");
            record_from_fields(id, name)
        },
        None => None,
    }
}

} // verus!
