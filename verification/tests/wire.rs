use ride_mode::pipeline::PublishPayload;
use ride_mode::response::Response;
use ride_mode::validate::MissingFieldsError;
use ride_mode::wire::{decimal, string_array};
use serde_json::Value;

fn parsed(text: &str) -> Value {
    serde_json::from_str(text).unwrap()
}

#[test]
fn decimal_renders_numbers() {
    assert_eq!(decimal(0), "0");
    assert_eq!(decimal(7), "7");
    assert_eq!(decimal(10), "10");
    assert_eq!(decimal(109), "109");
    assert_eq!(decimal(4_294_967_295), "4294967295");
    assert_eq!(decimal(usize::MAX), usize::MAX.to_string());
}

#[test]
fn string_array_renders_json_strings() {
    assert_eq!(string_array(&vec![]), "[]");
    assert_eq!(string_array(&vec!["a".to_string()]), "[\"a\"]");
    assert_eq!(string_array(&vec!["a".to_string(), "b c".to_string()]), "[\"a\",\"b c\"]");
    assert_eq!(
        string_array(&vec!["q\"t".to_string(), "b\\s".to_string(), "n\nl".to_string()]),
        "[\"q\\\"t\",\"b\\\\s\",\"n\\nl\"]"
    );
}

#[test]
fn payload_json_is_what_serde_writes() {
    let payload = PublishPayload { bike_identifier: "BK1".to_string(), steps: 1 };
    assert_eq!(payload.to_json(), "{\"bike_identifier\":\"BK1\",\"steps\":1}");
    let payload = PublishPayload { bike_identifier: "a\"b".to_string(), steps: 12 };
    let value = parsed(&payload.to_json());
    assert_eq!(value["bike_identifier"], Value::String("a\"b".to_string()));
    assert_eq!(value["steps"], Value::from(12u64));
}

#[test]
fn accepted_json() {
    assert_eq!(
        Response::Accepted.to_json(),
        "{\"statusCode\":200,\"body\":{\"message\":\"Success\"}}"
    );
}

#[test]
fn missing_fields_json() {
    let response = Response::missing(MissingFieldsError {
        missing_fields: vec!["bike_identifier".to_string()],
    });
    let text = response.to_json();
    assert_eq!(
        text,
        "{\"statusCode\":400,\"body\":{\"error\":\"Validation Error\",\"message\":\"missing required fields: [\\\"bike_identifier\\\"]\",\"missingFields\":[\"bike_identifier\"]}}"
    );
    let value = parsed(&text);
    assert_eq!(value["statusCode"], Value::from(400u64));
    assert_eq!(value["body"]["error"], Value::String("Validation Error".to_string()));
    assert_eq!(
        value["body"]["message"],
        Value::String("missing required fields: [\"bike_identifier\"]".to_string())
    );
    assert_eq!(
        value["body"]["missingFields"],
        Value::Array(vec![Value::String("bike_identifier".to_string())])
    );
}

#[test]
fn bad_request_json() {
    let value = parsed(&Response::bad_request("line 1\n\"x\"".to_string()).to_json());
    assert_eq!(value["statusCode"], Value::from(400u64));
    assert_eq!(value["body"]["error"], Value::String("Bad Request".to_string()));
    assert_eq!(value["body"]["message"], Value::String("line 1\n\"x\"".to_string()));
    assert_eq!(value["body"].as_object().unwrap().len(), 2);
}

#[test]
fn invalid_mode_json_names_the_field() {
    let value = parsed(&Response::invalid_current("warp").to_json());
    assert_eq!(value["statusCode"], Value::from(400u64));
    assert_eq!(value["body"]["error"], Value::String("Invalid Field".to_string()));
    assert_eq!(value["body"]["message"], Value::String("Invalid current_mode: `warp`".to_string()));
    assert_eq!(
        value["body"]["invalidFields"],
        Value::Array(vec![Value::String("current_mode".to_string())])
    );

    let text = Response::invalid_target("hyperdrive").to_json();
    assert_eq!(
        text,
        "{\"statusCode\":400,\"body\":{\"error\":\"Validation Error\",\"message\":\"Invalid change_to_mode: `hyperdrive`\",\"invalidFields\":[\"change_to_mode\"]}}"
    );
}

#[test]
fn success_json_has_status_and_message() {
    assert_eq!(
        Response::already_in_mode("glide").to_json(),
        "{\"status\":\"success\",\"message\":\"Bike already in mode glide\"}"
    );
    let value = parsed(&Response::processed("BK1").to_json());
    assert_eq!(value["status"], Value::String("success".to_string()));
    assert_eq!(
        value["message"],
        Value::String("Mode change request processed for bike: BK1".to_string())
    );
    assert_eq!(value.as_object().unwrap().len(), 2);
}

fn expected_literal(text: &str) -> String {
    let mut out = String::from("\"");
    for c in text.chars() {
        match c {
            '"' => out.push_str("\\\""),
            '\\' => out.push_str("\\\\"),
            '\u{8}' => out.push_str("\\b"),
            '\t' => out.push_str("\\t"),
            '\n' => out.push_str("\\n"),
            '\u{c}' => out.push_str("\\f"),
            '\r' => out.push_str("\\r"),
            c if (c as u32) < 0x20 => out.push_str(&format!("\\u00{:02x}", c as u32)),
            c => out.push(c),
        }
    }
    out.push('"');
    out
}

#[test]
fn every_character_is_escaped_as_stated() {
    let mut samples: Vec<char> = (0u32..0x100).filter_map(char::from_u32).collect();
    samples.extend(['\u{7f}', '\u{2028}', '\u{fffd}', 'é', '✓', '\u{1f600}']);
    for c in samples {
        let text = format!("a{}b", c);
        let literal = string_array(&vec![text.clone()]);
        assert_eq!(literal, format!("[{}]", expected_literal(&text)));
    }
    assert_eq!(string_array(&vec!["\u{1}\u{1f}".to_string()]), "[\"\\u0001\\u001f\"]");
}
