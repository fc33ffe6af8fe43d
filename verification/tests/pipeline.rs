use ride_mode::document::Document;
use ride_mode::error::{InvalidEnumValueError, ModeField, Upstream, UpstreamUnavailableError};
use ride_mode::pipeline::{advance, Action, Event, State};
use ride_mode::request::Request;
use ride_mode::response::Response;
use serde_json::Value;

/// Stands in for the conversion that the driver makes: the three fields of
/// a request, read out of the JSON text.
fn convert(json: &str) -> Result<Request, String> {
    let value: Value = serde_json::from_str(json).map_err(|error| error.to_string())?;
    let text = |key: &str| match value.get(key) {
        Some(Value::String(text)) => Ok(Some(text.clone())),
        Some(Value::Null) | None => Ok(None),
        Some(other) => Err(format!("invalid type: {}, expected a string", other)),
    };
    let required = |key: &str| text(key)?.ok_or(format!("missing field `{}`", key));
    Ok(Request {
        bike_identifier: required("bike_identifier")?,
        change_to_mode: required("change_to_mode")?,
        current_mode: text("current_mode")?,
    })
}

struct Run {
    outcome: Result<Response, UpstreamUnavailableError>,
    conversions: usize,
    resolves: Vec<String>,
    publishes: Vec<(String, usize)>,
    turns: usize,
}

fn run(
    json: &str,
    store: &dyn Fn(&str) -> Result<Option<String>, String>,
    channel: &dyn Fn(&str, usize) -> Result<(), String>,
) -> Run {
    let mut state = State::receive(json);
    let mut conversions = 0;
    let mut resolves = Vec::new();
    let mut publishes = Vec::new();
    let mut turns = 0;
    loop {
        let event = match state.pending() {
            Action::Finish => break,
            Action::Continue => Event::Proceed,
            Action::Deserialize => {
                conversions += 1;
                Event::Deserialized(convert(json))
            }
            Action::ResolveMode { identifier } => {
                let answer = store(&identifier);
                resolves.push(identifier);
                Event::ModeResolved(answer)
            }
            Action::Publish { payload } => {
                let outcome = channel(&payload.bike_identifier, payload.steps);
                publishes.push((payload.bike_identifier, payload.steps));
                Event::PublishAttempted(outcome)
            }
        };
        state = state.step(event);
        turns += 1;
        assert!(turns <= 6);
    }
    Run { outcome: state.finish().unwrap(), conversions, resolves, publishes, turns }
}

/// The state of a request after validation and conversion, at the first
/// point where it waits for the store or the channel, or at its end.
fn begun(json: &str) -> State {
    let state = State::receive(json).settle();
    match state.pending() {
        Action::Deserialize => state.step(Event::Deserialized(convert(json))).settle(),
        _ => state,
    }
}

fn no_store(_: &str) -> Result<Option<String>, String> {
    panic!("the state store must not be asked")
}

fn no_channel(_: &str, _: usize) -> Result<(), String> {
    panic!("nothing must be published")
}

fn channel_ok(_: &str, _: usize) -> Result<(), String> {
    Ok(())
}

#[test]
fn scenario_a_one_step_is_published() {
    let json = r#"{"bike_identifier":"BK1","change_to_mode":"combat","current_mode":"glide"}"#;
    let run = run(json, &no_store, &channel_ok);
    assert_eq!(run.publishes, vec![("BK1".to_string(), 1)]);
    assert!(run.resolves.is_empty());
    let response = run.outcome.unwrap();
    assert_eq!(response.status(), Some("success"));
    assert_eq!(response.status_code(), None);
    match response {
        Response::Processed { message } => {
            assert_eq!(message, "Mode change request processed for bike: BK1");
            assert!(message.contains("BK1"));
        }
        _ => panic!("expected a processed mode change"),
    }
}

#[test]
fn scenario_b_missing_identifier_is_rejected() {
    let json = r#"{"change_to_mode":"combat","current_mode":"glide"}"#;
    let run = run(json, &no_store, &no_channel);
    let response = run.outcome.unwrap();
    assert_eq!(response.status_code(), Some(400));
    assert_eq!(response.error(), Some("Validation Error"));
    match response {
        Response::MissingFields { message, missing_fields } => {
            assert_eq!(missing_fields, vec!["bike_identifier".to_string()]);
            assert_eq!(message, "missing required fields: [\"bike_identifier\"]");
        }
        _ => panic!("expected missing fields"),
    }
}

#[test]
fn scenario_c_same_mode_short_circuits() {
    let json = r#"{"bike_identifier":"BK1","change_to_mode":"glide","current_mode":"glide"}"#;
    let run = run(json, &no_store, &no_channel);
    assert!(run.publishes.is_empty());
    let response = run.outcome.unwrap();
    assert_eq!(response.status(), Some("success"));
    match response {
        Response::AlreadyInMode { message } => assert_eq!(message, "Bike already in mode glide"),
        _ => panic!("expected a short circuit"),
    }
}

#[test]
fn scenario_d_unknown_target_is_rejected() {
    let json = r#"{"bike_identifier":"BK1","change_to_mode":"hyperdrive","current_mode":"glide"}"#;
    let run = run(json, &no_store, &no_channel);
    let response = run.outcome.unwrap();
    assert_eq!(response.status_code(), Some(400));
    assert_eq!(response.error(), Some("Validation Error"));
    assert_eq!(response.invalid_field(), Some("change_to_mode"));
    match response {
        Response::InvalidTargetMode { message } => {
            assert_eq!(message, "Invalid change_to_mode: `hyperdrive`")
        }
        _ => panic!("expected an invalid target mode"),
    }
}

#[test]
fn scenario_e_store_supplies_current_mode() {
    let json = r#"{"bike_identifier":"BK1","change_to_mode":"ballistic"}"#;
    let store = |identifier: &str| {
        assert_eq!(identifier, "BK1");
        Ok(Some("combat".to_string()))
    };
    let run = run(json, &store, &channel_ok);
    assert_eq!(run.resolves, vec!["BK1".to_string()]);
    assert_eq!(run.publishes, vec![("BK1".to_string(), 1)]);
    assert!(matches!(run.outcome, Ok(Response::Processed { .. })));
}

#[test]
fn unknown_current_mode_names_current_mode() {
    let json = r#"{"bike_identifier":"BK1","change_to_mode":"combat","current_mode":"warp"}"#;
    let run = run(json, &no_store, &no_channel);
    let response = run.outcome.unwrap();
    assert_eq!(response.status_code(), Some(400));
    assert_eq!(response.error(), Some("Invalid Field"));
    assert_eq!(response.invalid_field(), Some("current_mode"));
    match response {
        Response::InvalidCurrentMode { message } => {
            assert_eq!(message, "Invalid current_mode: `warp`")
        }
        _ => panic!("expected an invalid current mode"),
    }
}

#[test]
fn both_modes_unknown_reports_current_mode() {
    let json = r#"{"bike_identifier":"BK1","change_to_mode":"hyperdrive","current_mode":"warp"}"#;
    let response = run(json, &no_store, &no_channel).outcome.unwrap();
    assert_eq!(response.invalid_field(), Some("current_mode"));
}

#[test]
fn unknown_mode_from_store_names_current_mode() {
    let json = r#"{"bike_identifier":"BK1","change_to_mode":"combat"}"#;
    let run = run(json, &|_| Ok(Some("cruise".to_string())), &no_channel);
    assert_eq!(run.resolves.len(), 1);
    match run.outcome.unwrap() {
        Response::InvalidCurrentMode { message } => {
            assert_eq!(message, "Invalid current_mode: `cruise`")
        }
        _ => panic!("expected an invalid current mode"),
    }
}

#[test]
fn empty_or_null_current_mode_asks_store_once() {
    for current in ["\"\"", "null"] {
        let json = format!(
            r#"{{"bike_identifier":"BK7","change_to_mode":"glide","current_mode":{}}}"#,
            current
        );
        let run = run(&json, &|_| Ok(Some("combat".to_string())), &channel_ok);
        assert_eq!(run.resolves, vec!["BK7".to_string()]);
        assert_eq!(run.publishes, vec![("BK7".to_string(), 2)]);
    }
}

#[test]
fn store_answer_equal_to_target_short_circuits() {
    let json = r#"{"bike_identifier":"BK1","change_to_mode":"ballistic"}"#;
    let run = run(json, &|_| Ok(Some("ballistic".to_string())), &no_channel);
    assert_eq!(run.resolves.len(), 1);
    assert!(matches!(run.outcome, Ok(Response::AlreadyInMode { .. })));
}

#[test]
fn store_failure_is_upstream_unavailable() {
    let json = r#"{"bike_identifier":"BK1","change_to_mode":"ballistic"}"#;
    let run = run(json, &|_| Err("connection refused".to_string()), &no_channel);
    assert_eq!(run.resolves, vec!["BK1".to_string()]);
    let error = run.outcome.unwrap_err();
    assert_eq!(error.source, Upstream::StateStore);
    assert_eq!(error.message, "connection refused");
}

#[test]
fn unknown_bike_is_upstream_unavailable() {
    let json = r#"{"bike_identifier":"BK9","change_to_mode":"ballistic"}"#;
    let run = run(json, &|_| Ok(None), &no_channel);
    assert_eq!(run.resolves, vec!["BK9".to_string()]);
    let error = run.outcome.unwrap_err();
    assert_eq!(error.source, Upstream::StateStore);
    assert_eq!(error.message, "no current mode is stored for bike `BK9`");
}

#[test]
fn publish_failure_does_not_change_the_response() {
    let json = r#"{"bike_identifier":"BK1","change_to_mode":"glide","current_mode":"combat"}"#;
    let run = run(json, &no_store, &|_, _| Err("throttled".to_string()));
    assert_eq!(run.publishes, vec![("BK1".to_string(), 2)]);
    match run.outcome.unwrap() {
        Response::Processed { message } => {
            assert_eq!(message, "Mode change request processed for bike: BK1")
        }
        _ => panic!("expected a processed mode change"),
    }
}

#[test]
fn publish_failure_is_kept_for_the_log() {
    let json = r#"{"bike_identifier":"BK1","change_to_mode":"glide","current_mode":"combat"}"#;
    let state = begun(json);
    assert!(state.absorbed().is_none());
    let failed = state.step(Event::PublishAttempted(Err("throttled".to_string())));
    let error = failed.absorbed().unwrap();
    assert_eq!(error.source, Upstream::PublishChannel);
    assert_eq!(error.message, "throttled");
    assert!(matches!(failed.finish(), Some(Ok(Response::Processed { .. }))));

    let done = begun(json).step(Event::PublishAttempted(Ok(())));
    assert!(done.absorbed().is_none());
    assert!(matches!(done.finish(), Some(Ok(Response::Processed { .. }))));
}

#[test]
fn invalid_value_error_becomes_the_matching_rejection() {
    let current = Response::invalid_value(InvalidEnumValueError {
        field: ModeField::CurrentMode,
        value: "warp".to_string(),
    });
    assert_eq!(current.invalid_field(), Some("current_mode"));
    assert_eq!(current.message(), "Invalid current_mode: `warp`");
    let target = Response::invalid_value(InvalidEnumValueError {
        field: ModeField::ChangeToMode,
        value: "warp".to_string(),
    });
    assert_eq!(target.invalid_field(), Some("change_to_mode"));
    assert_eq!(target.message(), "Invalid change_to_mode: `warp`");
}

#[test]
fn malformed_value_is_a_bad_request() {
    let json = r#"{"bike_identifier":"BK1","change_to_mode":3}"#;
    let response = run(json, &no_store, &no_channel).outcome.unwrap();
    assert_eq!(response.status_code(), Some(400));
    assert_eq!(response.error(), Some("Bad Request"));
    match response {
        Response::BadRequest { message } => {
            assert_eq!(message, "invalid type: 3, expected a string")
        }
        _ => panic!("expected a bad request"),
    }
}

#[test]
fn unreadable_text_misses_both_fields() {
    let response = run("not json", &no_store, &no_channel).outcome.unwrap();
    match response {
        Response::MissingFields { missing_fields, .. } => assert_eq!(
            missing_fields,
            vec!["bike_identifier".to_string(), "change_to_mode".to_string()]
        ),
        _ => panic!("expected missing fields"),
    }
}

#[test]
fn null_identifier_counts_as_missing() {
    let json = r#"{"bike_identifier":null,"change_to_mode":"combat"}"#;
    match run(json, &no_store, &no_channel).outcome.unwrap() {
        Response::MissingFields { missing_fields, .. } => {
            assert_eq!(missing_fields, vec!["bike_identifier".to_string()])
        }
        _ => panic!("expected missing fields"),
    }
}

#[test]
fn document_is_converted_only_after_validation() {
    let complete = r#"{"bike_identifier":"BK1","change_to_mode":"combat","current_mode":"glide"}"#;
    assert_eq!(run(complete, &no_store, &channel_ok).conversions, 1);
    let malformed = r#"{"bike_identifier":"BK1","change_to_mode":3}"#;
    assert_eq!(run(malformed, &no_store, &no_channel).conversions, 1);
    let incomplete = r#"{"bike_identifier":"BK1"}"#;
    assert_eq!(run(incomplete, &no_store, &no_channel).conversions, 0);
    assert_eq!(run("not json", &no_store, &no_channel).conversions, 0);
}

#[test]
fn conversion_failure_carries_its_message() {
    let state = State::receive(r#"{"bike_identifier":"BK1","change_to_mode":"x"}"#).settle();
    let state = state.step(Event::Deserialized(Err("conversion failed".to_string()))).settle();
    match state.finish() {
        Some(Ok(Response::BadRequest { message })) => assert_eq!(message, "conversion failed"),
        _ => panic!("expected a bad request"),
    }
}

#[test]
fn converted_request_is_what_the_run_goes_on_with() {
    let state = State::receive(r#"{"bike_identifier":"BK1","change_to_mode":"x"}"#).settle();
    let request = Request {
        bike_identifier: "OTHER".to_string(),
        change_to_mode: "ballistic".to_string(),
        current_mode: Some("glide".to_string()),
    };
    let state = state.step(Event::Deserialized(Ok(request))).settle();
    match state.pending() {
        Action::Publish { payload } => {
            assert_eq!(payload.bike_identifier, "OTHER");
            assert_eq!(payload.steps, 2);
        }
        other => panic!("unexpected action {:?}", other),
    }
}

#[test]
fn runs_take_at_most_six_turns() {
    let json = r#"{"bike_identifier":"BK1","change_to_mode":"combat","current_mode":"glide"}"#;
    assert_eq!(run(json, &no_store, &channel_ok).turns, 6);
    assert_eq!(run("{}", &no_store, &no_channel).turns, 2);
}

#[test]
fn states_follow_the_documented_order() {
    let json = r#"{"bike_identifier":"BK1","change_to_mode":"combat"}"#;
    let state = State::received(Document::parse(json));
    assert!(matches!(state, State::Received { .. }));
    let (state, action) = advance(state, Event::Proceed);
    assert!(matches!(state, State::FieldsChecked { .. }));
    assert!(matches!(action, Action::Deserialize));
    let (state, action) = advance(state, Event::Deserialized(convert(json)));
    assert!(matches!(state, State::Deserialized { .. }));
    match action {
        Action::ResolveMode { identifier } => assert_eq!(identifier, "BK1"),
        other => panic!("unexpected action {:?}", other),
    }
    let (state, action) = advance(state, Event::ModeResolved(Ok(Some("glide".to_string()))));
    assert!(matches!(state, State::Resolved { .. }));
    assert!(matches!(action, Action::Continue));
    let (state, _) = advance(state, Event::Proceed);
    match &state {
        State::EnumValidated { current_index, target_index, .. } => {
            assert_eq!(*current_index, Some(0));
            assert_eq!(*target_index, Some(1));
        }
        _ => panic!("expected looked-up modes"),
    }
    let (state, action) = advance(state, Event::Proceed);
    assert!(matches!(state, State::Computed { steps: 1, .. }));
    match action {
        Action::Publish { payload } => {
            assert_eq!(payload.bike_identifier, "BK1");
            assert_eq!(payload.steps, 1);
        }
        other => panic!("unexpected action {:?}", other),
    }
    let (state, action) = advance(state, Event::PublishAttempted(Ok(())));
    assert!(matches!(state, State::Published { .. }));
    assert!(matches!(action, Action::Finish));
}

#[test]
fn waiting_states_stay_on_other_events() {
    let json = r#"{"bike_identifier":"BK1","change_to_mode":"combat"}"#;
    let state = State::receive(json).step(Event::Proceed);
    assert!(matches!(state.pending(), Action::Deserialize));
    let state = state.step(Event::Proceed);
    let state = state.step(Event::ModeResolved(Ok(None)));
    assert!(matches!(state, State::FieldsChecked { .. }));
    assert!(matches!(state.pending(), Action::Deserialize));
    let state = state.step(Event::Deserialized(convert(json)));
    let state = state.step(Event::Proceed);
    let state = state.step(Event::Deserialized(Err("late".to_string())));
    assert!(matches!(state, State::Deserialized { .. }));
    let state = state.step(Event::PublishAttempted(Ok(())));
    assert!(matches!(state.pending(), Action::ResolveMode { .. }));
    assert!(state.finish().is_none());

    let state = State::Computed { identifier: "B".to_string(), target: "combat".to_string(), steps: 2 };
    let state = state.step(Event::Proceed);
    assert!(matches!(state, State::Computed { steps: 2, .. }));
    let state = state.step(Event::ModeResolved(Ok(Some("glide".to_string()))));
    assert!(matches!(state.pending(), Action::Publish { .. }));
}

#[test]
fn final_states_do_not_move() {
    let state = State::receive("{}").step(Event::Proceed).step(Event::Proceed);
    assert!(matches!(state, State::Rejected { .. }));
    let state = state.step(Event::ModeResolved(Ok(Some("glide".to_string()))));
    assert!(matches!(state, State::Rejected { .. }));
    assert!(matches!(state.pending(), Action::Finish));
    assert!(matches!(state.finish(), Some(Ok(Response::MissingFields { .. }))));
}

#[test]
fn index_outside_the_ordering_counts_as_unknown() {
    let state = State::EnumValidated {
        identifier: "B".to_string(),
        target: "combat".to_string(),
        current: "glide".to_string(),
        current_index: Some(3),
        target_index: Some(1),
    };
    assert!(matches!(
        state.step(Event::Proceed).finish(),
        Some(Ok(Response::InvalidCurrentMode { .. }))
    ));
}

#[test]
fn settle_stops_where_outside_work_is_needed() {
    let json = r#"{"bike_identifier":"BK1","change_to_mode":"combat"}"#;
    let state = State::receive(json).settle();
    assert!(matches!(state, State::FieldsChecked { .. }));
    assert!(matches!(state.pending(), Action::Deserialize));

    let state = state.step(Event::Deserialized(convert(json))).settle();
    assert!(matches!(state, State::Deserialized { .. }));
    assert!(matches!(state.pending(), Action::ResolveMode { .. }));

    let state = state.step(Event::ModeResolved(Ok(Some("glide".to_string())))).settle();
    assert!(matches!(state, State::Computed { steps: 1, .. }));
    assert!(matches!(state.pending(), Action::Publish { .. }));

    let state = state.settle();
    assert!(matches!(state, State::Computed { steps: 1, .. }));

    let state = state.step(Event::PublishAttempted(Err("late".to_string()))).settle();
    assert!(matches!(state.finish(), Some(Ok(Response::Processed { .. }))));
}

#[test]
fn settle_runs_to_the_end_without_outside_work() {
    let json = r#"{"bike_identifier":"BK1","change_to_mode":"glide","current_mode":"glide"}"#;
    let state = begun(json);
    assert!(matches!(state, State::ShortCircuited { .. }));
    let state = State::receive("[1]").settle();
    assert!(matches!(state, State::Rejected { .. }));
    let state = state.settle();
    assert!(matches!(state.pending(), Action::Finish));
}
