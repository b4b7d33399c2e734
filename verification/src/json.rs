//! The JSON that crosses the wire and lies on disk: reading through
//! `serde_json`, and writing with its string escaping.
use vstd::prelude::*;

verus! {

/// A parsed JSON document: `serde_json::Value`. Opaque here; what it holds is
/// read through the functions below.
#[verifier::external_type_specification]
#[verifier::external_body]
pub struct ExJsonValue(serde_json::Value);

/// The document that `serde_json::from_str` makes of `text`; `None` where it
/// reports an error.
pub uninterp spec fn json_document(text: Seq<char>) -> Option<serde_json::Value>;

/// What `serde_json::Value::get` finds in `doc` under the string index `key`.
pub uninterp spec fn json_member(doc: serde_json::Value, key: Seq<char>) -> Option<
    serde_json::Value,
>;

/// Whether `serde_json::Value::is_null` holds of `value`.
pub uninterp spec fn json_null(value: serde_json::Value) -> bool;

/// What `serde_json::Value::as_str` returns for `value`.
pub uninterp spec fn json_text(value: serde_json::Value) -> Option<Seq<char>>;

/// What `serde_json::Value::as_u64` returns for `value`.
pub uninterp spec fn json_unsigned(value: serde_json::Value) -> Option<u64>;

/// The JSON text that `serde_json` writes for the string `text`: quoted and
/// escaped.
pub uninterp spec fn json_string_literal(text: Seq<char>) -> Seq<char>;

/// Parses `text` with `serde_json::from_str` into a `serde_json::Value`.
///
/// Trusted: the contract only gives the outcome a name. It claims that the
/// outcome depends on `text` alone, and that `None` stands for every error.
#[verifier::external_body]
pub(crate) fn parse_document(text: &str) -> (doc: Option<serde_json::Value>)
    ensures
        doc == json_document(text@),
{
    serde_json::from_str::<serde_json::Value>(text).ok()
}

/// Looks `key` up in `doc` with `serde_json::Value::get`.
///
/// Trusted: the contract only gives the outcome a name. It claims that the
/// outcome depends on the document and the key alone.
#[verifier::external_body]
pub(crate) fn member<'a>(doc: &'a serde_json::Value, key: &str) -> (found: Option<
    &'a serde_json::Value,
>)
    ensures
        match found {
            Some(value) => json_member(*doc, key@) == Some(*value),
            None => json_member(*doc, key@) is None,
        },
{
    doc.get(key)
}

/// `serde_json::Value::is_null`.
///
/// Trusted: the contract only gives the outcome a name.
#[verifier::external_body]
pub(crate) fn is_null(value: &serde_json::Value) -> (null: bool)
    ensures
        null == json_null(*value),
{
    value.is_null()
}

/// `serde_json::Value::as_str`, with the text copied out.
///
/// Trusted: the contract only gives the outcome a name.
#[verifier::external_body]
pub(crate) fn as_text(value: &serde_json::Value) -> (text: Option<String>)
    ensures
        match text {
            Some(t) => json_text(*value) == Some(t@),
            None => json_text(*value) is None,
        },
{
    value.as_str().map(String::from)
}

/// `serde_json::Value::as_u64`.
///
/// Trusted: the contract only gives the outcome a name.
#[verifier::external_body]
pub(crate) fn as_unsigned(value: &serde_json::Value) -> (number: Option<u64>)
    ensures
        number == json_unsigned(*value),
{
    value.as_u64()
}

/// Writes `text` as a JSON string: a `serde_json::Value::String` rendered by
/// its `Display` impl.
///
/// Trusted: the contract only gives the outcome a name. It claims that the
/// outcome depends on `text` alone.
#[verifier::external_body]
pub(crate) fn quote(text: &str) -> (quoted: String)
    ensures
        quoted@ == json_string_literal(text@),
{
    serde_json::Value::from(text).to_string()
}

/// What the library reads of one member of a JSON object, by content.
pub enum Field {
    /// The document has no such member, or is no object.
    Missing,
    /// The member is `null`.
    Null,
    /// The member is a string.
    Text(Seq<char>),
    /// The member is a number that fits an unsigned 64-bit integer.
    Unsigned(u64),
    /// The member is anything else.
    Other,
}

/// What the library reads of one member of a JSON object.
#[derive(Debug)]
pub enum JsonField {
    Missing,
    Null,
    Text(String),
    Unsigned(u64),
    Other,
}

impl View for JsonField {
    type V = Field;

    open spec fn view(&self) -> Field {
        match *self {
            JsonField::Missing => Field::Missing,
            JsonField::Null => Field::Null,
            JsonField::Text(text) => Field::Text(text@),
            JsonField::Unsigned(number) => Field::Unsigned(number),
            JsonField::Other => Field::Other,
        }
    }
}

/// How a value is read: `null` first, then a string, then an unsigned number.
pub open spec fn field_of_value(value: serde_json::Value) -> Field {
    if json_null(value) {
        Field::Null
    } else if json_text(value) is Some {
        Field::Text(json_text(value)->0)
    } else if json_unsigned(value) is Some {
        Field::Unsigned(json_unsigned(value)->0)
    } else {
        Field::Other
    }
}

/// How the member `key` of `doc` is read.
pub open spec fn field_of(doc: serde_json::Value, key: Seq<char>) -> Field {
    match json_member(doc, key) {
        None => Field::Missing,
        Some(value) => field_of_value(value),
    }
}

/// Reads the member `key` of `doc`.
pub fn read_field(doc: &serde_json::Value, key: &str) -> (field: JsonField)
    ensures
        field@ == field_of(*doc, key@),
{
    match member(doc, key) {
        None => JsonField::Missing,
        Some(value) => {
            if is_null(value) {
                JsonField::Null
            } else {
                match as_text(value) {
                    Some(text) => JsonField::Text(text),
                    None => match as_unsigned(value) {
                        Some(number) => JsonField::Unsigned(number),
                        None => JsonField::Other,
                    },
                }
            }
        },
    }
}

/// The decimal digit for `d`, as text.
pub open spec fn digit_text(d: nat) -> Seq<char> {
    if d == 0 {
        "0"@
    } else if d == 1 {
        "1"@
    } else if d == 2 {
        "2"@
    } else if d == 3 {
        "3"@
    } else if d == 4 {
        "4"@
    } else if d == 5 {
        "5"@
    } else if d == 6 {
        "6"@
    } else if d == 7 {
        "7"@
    } else if d == 8 {
        "8"@
    } else {
        "9"@
    }
}

/// The decimal numeral of `n`, without sign or leading zeros.
pub open spec fn decimal_text(n: nat) -> Seq<char>
    decreases n,
{
    if n < 10 {
        digit_text(n)
    } else {
        decimal_text(n / 10) + digit_text(n % 10)
    }
}

fn digit(d: u64) -> (text: &'static str)
    requires
        d < 10,
    ensures
        text@ == digit_text(d as nat),
{
    if d == 0 {
        "0"
    } else if d == 1 {
        "1"
    } else if d == 2 {
        "2"
    } else if d == 3 {
        "3"
    } else if d == 4 {
        "4"
    } else if d == 5 {
        "5"
    } else if d == 6 {
        "6"
    } else if d == 7 {
        "7"
    } else if d == 8 {
        "8"
    } else {
        "9"
    }
}

/// Writes `n` as a decimal numeral.
pub fn decimal(n: u64) -> (text: String)
    ensures
        text@ == decimal_text(n as nat),
    decreases n,
{
    if n < 10 {
        digit(n).to_owned()
    } else {
        let mut text = decimal(n / 10);
        text.append(digit(n % 10));
        text
    }
}

} // verus!
