//! The JSON texts that leave the library: responses and publish payloads.

use vstd::prelude::*;
use vstd::string::*;
use serde_json::Value;
use crate::pipeline::{PublishPayload, PublishPayloadView};
use crate::response::{Response, ResponseView};
use crate::text::{join, joined, views};

verus! {

/// The hexadecimal digit, in lower case, for a number below sixteen.
pub open spec fn hex_digit(d: int) -> char {
    if d == 0 {
        '0'
    } else if d == 1 {
        '1'
    } else if d == 2 {
        '2'
    } else if d == 3 {
        '3'
    } else if d == 4 {
        '4'
    } else if d == 5 {
        '5'
    } else if d == 6 {
        '6'
    } else if d == 7 {
        '7'
    } else if d == 8 {
        '8'
    } else if d == 9 {
        '9'
    } else if d == 10 {
        'a'
    } else if d == 11 {
        'b'
    } else if d == 12 {
        'c'
    } else if d == 13 {
        'd'
    } else if d == 14 {
        'e'
    } else {
        'f'
    }
}

/// One character as it stands inside a JSON string literal: the quote and
/// the backslash behind a backslash, the control characters below U+0020 by
/// their short escape or as `\u00` and two hexadecimal digits, and every
/// other character as it is.
pub open spec fn json_escape(c: char) -> Seq<char> {
    let code = c as u32;
    if code == 0x22 {
        seq!['\\', '"']
    } else if code == 0x5c {
        seq!['\\', '\\']
    } else if code == 0x08 {
        seq!['\\', 'b']
    } else if code == 0x09 {
        seq!['\\', 't']
    } else if code == 0x0a {
        seq!['\\', 'n']
    } else if code == 0x0c {
        seq!['\\', 'f']
    } else if code == 0x0d {
        seq!['\\', 'r']
    } else if code < 0x20 {
        seq!['\\', 'u', '0', '0', hex_digit(code as int / 16), hex_digit(code as int % 16)]
    } else {
        seq![c]
    }
}

/// The characters of a text, each as it stands inside a JSON string
/// literal.
pub open spec fn json_escaped(text: Seq<char>) -> Seq<char>
    decreases text.len(),
{
    if text.len() == 0 {
        Seq::empty()
    } else {
        json_escaped(text.drop_last()) + json_escape(text.last())
    }
}

/// A string as a JSON string literal: its characters, escaped, between
/// double quotes.
pub open spec fn json_string(text: Seq<char>) -> Seq<char> {
    seq!['"'] + json_escaped(text) + seq!['"']
}

/// Renders a string as a JSON string literal: the `Display` form of
/// `serde_json::Value::String`, which is the compact JSON text of the
/// string. It puts the string between double quotes and escapes the quote,
/// the backslash and the control characters below U+0020, and nothing else.
#[verifier::external_body]
fn quote_json(text: &str) -> (literal: String)
    ensures
        literal@ == json_string(text@),
{
    Value::String(text.to_owned()).to_string()
}

/// The decimal digit for a number below ten.
pub open spec fn digit(d: nat) -> Seq<char> {
    if d == 0 {
        "0"@
    } else if d == 1 {
        "1"@
    } else if d == 2 {
        "2"@
    } else if d == 3 {
        "3"@
    } else if d == 4 {
        "4"@
    } else if d == 5 {
        "5"@
    } else if d == 6 {
        "6"@
    } else if d == 7 {
        "7"@
    } else if d == 8 {
        "8"@
    } else {
        "9"@
    }
}

/// A number in decimal, without leading zeros.
pub open spec fn decimal_text(n: nat) -> Seq<char>
    decreases n,
{
    if n < 10 {
        digit(n)
    } else {
        decimal_text(n / 10) + digit(n % 10)
    }
}

/// The items, each as a JSON string literal.
pub open spec fn json_each(items: Seq<Seq<char>>) -> Seq<Seq<char>> {
    Seq::new(items.len(), |i: int| json_string(items[i]))
}

/// A JSON array of strings.
pub open spec fn json_array(items: Seq<Seq<char>>) -> Seq<char> {
    "["@ + joined(json_each(items), ","@) + "]"@
}

/// A rejection as JSON: status code 400, and a body with the error label,
/// the message, and what `rest` adds.
pub open spec fn rejection_json(label: Seq<char>, message: Seq<char>, rest: Seq<char>) -> Seq<
    char,
> {
    "{\"statusCode\":400,\"body\":{\"error\":"@ + json_string(label) + ",\"message\":"@
        + json_string(message) + rest + "}}"@
}

/// A success of a mode change request as JSON.
pub open spec fn success_json(message: Seq<char>) -> Seq<char> {
    "{\"status\":\"success\",\"message\":"@ + json_string(message) + "}"@
}

/// A response as JSON.
pub open spec fn response_json(response: ResponseView) -> Seq<char> {
    match response {
        ResponseView::Accepted => "{\"statusCode\":200,\"body\":{\"message\":\"Success\"}}"@,
        ResponseView::MissingFields { message, missing_fields } => rejection_json(
            "Validation Error"@,
            message,
            ",\"missingFields\":"@ + json_array(missing_fields),
        ),
        ResponseView::BadRequest { message } => rejection_json(
            "Bad Request"@,
            message,
            Seq::empty(),
        ),
        ResponseView::InvalidCurrentMode { message } => rejection_json(
            "Invalid Field"@,
            message,
            ",\"invalidFields\":"@ + json_array(seq!["current_mode"@]),
        ),
        ResponseView::InvalidTargetMode { message } => rejection_json(
            "Validation Error"@,
            message,
            ",\"invalidFields\":"@ + json_array(seq!["change_to_mode"@]),
        ),
        ResponseView::AlreadyInMode { message } => success_json(message),
        ResponseView::Processed { message } => success_json(message),
    }
}

/// A publish payload as JSON: the bike and the number of steps.
pub open spec fn payload_json(payload: PublishPayloadView) -> Seq<char> {
    "{\"bike_identifier\":"@ + json_string(payload.bike_identifier) + ",\"steps\":"@
        + decimal_text(payload.steps as nat) + "}"@
}

/// The decimal digit for a number below ten.
fn digit_text(d: usize) -> (text: &'static str)
    requires
        d < 10,
    ensures
        text@ == digit(d as nat),
{
    if d == 0 {
        "0"
    } else if d == 1 {
        "1"
    } else if d == 2 {
        "2"
    } else if d == 3 {
        "3"
    } else if d == 4 {
        "4"
    } else if d == 5 {
        "5"
    } else if d == 6 {
        "6"
    } else if d == 7 {
        "7"
    } else if d == 8 {
        "8"
    } else {
        "9"
    }
}

/// A number in decimal, without leading zeros.
pub fn decimal(n: usize) -> (text: String)
    ensures
        text@ == decimal_text(n as nat),
    decreases n,
{
    if n < 10 {
        digit_text(n).to_owned()
    } else {
        let mut text = decimal(n / 10);
        text.append(digit_text(n % 10));
        text
    }
}

/// A JSON array of strings.
pub fn string_array(items: &Vec<String>) -> (text: String)
    ensures
        text@ == json_array(views(items@)),
{
    let mut literals: Vec<String> = Vec::new();
    let ghost names = views(items@);
    let mut i: usize = 0;
    while i < items.len()
        invariant
            i <= items.len(),
            names == views(items@),
            literals@.len() == i,
            forall|k: int| 0 <= k < i ==> (#[trigger] literals@[k])@ == json_string(names[k]),
        decreases items.len() - i,
    {
        literals.push(quote_json(items[i].as_str()));
        i += 1;
    }
    assert(views(literals@) =~= json_each(names));
    let list = join(&literals, ",");
    let mut text = "[".to_owned();
    text.append(list.as_str());
    text.append("]");
    text
}

/// A rejection as JSON.
fn rejection(label: &str, message: &str, rest: &str) -> (text: String)
    ensures
        text@ == rejection_json(label@, message@, rest@),
{
    let mut text = "{\"statusCode\":400,\"body\":{\"error\":".to_owned();
    let label_json = quote_json(label);
    let message_json = quote_json(message);
    text.append(label_json.as_str());
    text.append(",\"message\":");
    text.append(message_json.as_str());
    text.append(rest);
    text.append("}}");
    text
}

/// A success of a mode change request as JSON.
fn success(message: &str) -> (text: String)
    ensures
        text@ == success_json(message@),
{
    let mut text = "{\"status\":\"success\",\"message\":".to_owned();
    let message_json = quote_json(message);
    text.append(message_json.as_str());
    text.append("}");
    text
}

/// The member `invalidFields` with one field name.
fn invalid_fields(name: &str) -> (text: String)
    ensures
        text@ == ",\"invalidFields\":"@ + json_array(seq![name@]),
{
    let mut names: Vec<String> = Vec::new();
    names.push(name.to_owned());
    let list = string_array(&names);
    let mut text = ",\"invalidFields\":".to_owned();
    text.append(list.as_str());
    text
}

impl Response {
    /// The response as compact JSON text.
    pub fn to_json(&self) -> (text: String)
        ensures
            text@ == response_json(self@),
    {
        match self {
            Response::Accepted => "{\"statusCode\":200,\"body\":{\"message\":\"Success\"}}".to_owned(),
            Response::MissingFields { message, missing_fields } => {
                let list = string_array(missing_fields);
                let mut rest = ",\"missingFields\":".to_owned();
                rest.append(list.as_str());
                rejection("Validation Error", message.as_str(), rest.as_str())
            },
            Response::BadRequest { message } => {
                let text = rejection("Bad Request", message.as_str(), "");
                proof {
                    reveal_strlit("");
                }
                text
            },
            Response::InvalidCurrentMode { message } => {
                let rest = invalid_fields("current_mode");
                rejection("Invalid Field", message.as_str(), rest.as_str())
            },
            Response::InvalidTargetMode { message } => {
                let rest = invalid_fields("change_to_mode");
                rejection("Validation Error", message.as_str(), rest.as_str())
            },
            Response::AlreadyInMode { message } => success(message.as_str()),
            Response::Processed { message } => success(message.as_str()),
        }
    }
}

impl PublishPayload {
    /// The payload as compact JSON text.
    pub fn to_json(&self) -> (text: String)
        ensures
            text@ == payload_json(self@),
    {
        let mut text = "{\"bike_identifier\":".to_owned();
        let identifier = quote_json(self.bike_identifier.as_str());
        let steps = decimal(self.steps);
        text.append(identifier.as_str());
        text.append(",\"steps\":");
        text.append(steps.as_str());
        text.append("}");
        text
    }
}

} // verus!
