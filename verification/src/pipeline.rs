//! The request pipeline as a state machine.
//!
//! A request passes through the states
//! `Received`, `FieldsChecked`, `Deserialized`, `Resolved`, `EnumValidated`
//! and `Computed`, and ends in `ShortCircuited` or `Published`. It ends in
//! `Rejected` where fields are missing, a value is malformed or a mode name
//! is unknown, and in `Unavailable` where the state store gave no answer.
//!
//! The machine decides; its driver acts. Each state says what it waits for:
//! nothing, the conversion of the document into a request, the current mode
//! of a bike from the state store, or the attempt to publish a mode change.
//! The driver does that work and hands the result back as an event, until a
//! state is final.

use vstd::prelude::*;
use vstd::string::*;
use crate::document::{parsed_document, Document, DocumentView};
use crate::error::{
    InvalidEnumValueError,
    MalformedDocumentError,
    ModeField,
    Upstream,
    UpstreamUnavailableError,
};
use crate::modes::{forward_steps, index_of, mode_index, mode_steps, MODE_COUNT};
use crate::request::{decoded_view, request_schema, Request, RequestView, REQUEST_FIELDS};
use crate::response::{
    already_message,
    invalid_current_message,
    invalid_target_message,
    processed_message,
    Response,
    ResponseView,
};
use crate::text::views;
use crate::validate::{missing_fields, missing_message, missing_names, MissingFieldsError};

verus! {

/// What is handed to the publish channel for a mode change.
#[derive(Debug)]
pub struct PublishPayload {
    /// The bike whose mode changes.
    pub bike_identifier: String,
    /// The number of forward steps to take.
    pub steps: usize,
}

/// Mathematical model of a [`PublishPayload`].
pub struct PublishPayloadView {
    pub bike_identifier: Seq<char>,
    pub steps: int,
}

impl View for PublishPayload {
    type V = PublishPayloadView;

    open spec fn view(&self) -> PublishPayloadView {
        PublishPayloadView { bike_identifier: self.bike_identifier@, steps: self.steps as int }
    }
}

/// A state of the pipeline.
#[derive(Debug)]
pub enum State {
    /// The document has arrived.
    Received { document: Document },
    /// The document was checked against the schema of a request.
    FieldsChecked { missing: Vec<String> },
    /// The document was converted into a request, or could not be.
    Deserialized { decoded: Result<Request, MalformedDocumentError> },
    /// The current mode is known, from the request or from the state store.
    Resolved { identifier: String, target: String, current: String },
    /// Both mode names were looked up in the ordering.
    EnumValidated {
        identifier: String,
        target: String,
        current: String,
        current_index: Option<usize>,
        target_index: Option<usize>,
    },
    /// The number of forward steps is known.
    Computed { identifier: String, target: String, steps: usize },
    /// Final: the bike is already in the requested mode.
    ShortCircuited { response: Response },
    /// Final: the mode change was handed to the publish channel. Where the
    /// channel failed, what it reported is kept beside the response; it
    /// does not change the response.
    Published { response: Response, failure: Option<String> },
    /// Final: the request was rejected.
    Rejected { response: Response },
    /// Final: the state store gave no answer.
    Unavailable { error: UpstreamUnavailableError },
}

/// What the driver hands back to the machine.
#[derive(Debug)]
pub enum Event {
    /// Nothing was asked for.
    Proceed,
    /// What the conversion of the document into a request gave: the
    /// request, or the message of the conversion's failure.
    Deserialized(Result<Request, String>),
    /// The answer of the state store to the lookup of a bike: the mode that
    /// it holds for the bike, `None` where it knows no such bike, or the
    /// failure of the lookup.
    ModeResolved(Result<Option<String>, String>),
    /// The outcome of the attempt to publish: done, or its failure.
    PublishAttempted(Result<(), String>),
}

/// What a state waits for.
#[derive(Debug)]
pub enum Action {
    /// Nothing: the driver hands back `Proceed`.
    Continue,
    /// The conversion of the document into a request.
    Deserialize,
    /// The current mode of this bike, from the state store.
    ResolveMode { identifier: String },
    /// The attempt to publish this payload.
    Publish { payload: PublishPayload },
    /// Nothing more: the state is final.
    Finish,
}

/// Mathematical model of a [`State`].
pub enum StateView {
    Received { document: DocumentView },
    FieldsChecked { missing: Seq<Seq<char>> },
    Deserialized { decoded: Result<RequestView, Seq<char>> },
    Resolved { identifier: Seq<char>, target: Seq<char>, current: Seq<char> },
    EnumValidated {
        identifier: Seq<char>,
        target: Seq<char>,
        current: Seq<char>,
        current_index: Option<int>,
        target_index: Option<int>,
    },
    Computed { identifier: Seq<char>, target: Seq<char>, steps: int },
    ShortCircuited { response: ResponseView },
    Published { response: ResponseView, failure: Option<Seq<char>> },
    Rejected { response: ResponseView },
    Unavailable { source: Upstream, message: Seq<char> },
}

/// Mathematical model of an [`Event`].
pub enum EventView {
    Proceed,
    Deserialized(Result<RequestView, Seq<char>>),
    ModeResolved(Result<Option<Seq<char>>, Seq<char>>),
    PublishAttempted(Result<(), Seq<char>>),
}

/// Mathematical model of an [`Action`].
pub enum ActionView {
    Continue,
    Deserialize,
    ResolveMode { identifier: Seq<char> },
    Publish { payload: PublishPayloadView },
    Finish,
}

/// The model of an index that may be absent.
pub open spec fn index_view(index: Option<usize>) -> Option<int> {
    match index {
        Some(i) => Some(i as int),
        None => None,
    }
}

/// The model of what a conversion gave.
pub open spec fn converted_view(converted: Result<Request, String>) -> Result<
    RequestView,
    Seq<char>,
> {
    match converted {
        Ok(request) => Ok(request@),
        Err(message) => Err(message@),
    }
}

/// The model of an answer of the state store.
pub open spec fn answer_view(answer: Result<Option<String>, String>) -> Result<
    Option<Seq<char>>,
    Seq<char>,
> {
    match answer {
        Ok(Some(mode)) => Ok(Some(mode@)),
        Ok(None) => Ok(None),
        Err(text) => Err(text@),
    }
}

/// What is reported of a bike for which the state store holds no mode.
pub open spec fn unknown_bike_message(identifier: Seq<char>) -> Seq<char> {
    "no current mode is stored for bike `"@ + identifier + "`"@
}

/// The current mode that an answer of the state store gives for a bike, or
/// why it gives none: the store failed, or it does not know the bike.
pub open spec fn answered_mode(
    identifier: Seq<char>,
    answer: Result<Option<Seq<char>>, Seq<char>>,
) -> Result<Seq<char>, Seq<char>> {
    match answer {
        Ok(Some(mode)) => Ok(mode),
        Ok(None) => Err(unknown_bike_message(identifier)),
        Err(message) => Err(message),
    }
}

/// The model of a result that carries a text only where it failed.
pub open spec fn unit_result_view(result: Result<(), String>) -> Result<(), Seq<char>> {
    match result {
        Ok(_) => Ok(()),
        Err(text) => Err(text@),
    }
}

impl View for State {
    type V = StateView;

    open spec fn view(&self) -> StateView {
        match self {
            State::Received { document } => StateView::Received { document: document@ },
            State::FieldsChecked { missing } => StateView::FieldsChecked {
                missing: views(missing@),
            },
            State::Deserialized { decoded } => StateView::Deserialized {
                decoded: decoded_view(*decoded),
            },
            State::Resolved { identifier, target, current } => StateView::Resolved {
                identifier: identifier@,
                target: target@,
                current: current@,
            },
            State::EnumValidated {
                identifier,
                target,
                current,
                current_index,
                target_index,
            } => StateView::EnumValidated {
                identifier: identifier@,
                target: target@,
                current: current@,
                current_index: index_view(*current_index),
                target_index: index_view(*target_index),
            },
            State::Computed { identifier, target, steps } => StateView::Computed {
                identifier: identifier@,
                target: target@,
                steps: *steps as int,
            },
            State::ShortCircuited { response } => StateView::ShortCircuited {
                response: response@,
            },
            State::Published { response, failure } => StateView::Published {
                response: response@,
                failure: match failure {
                    Some(message) => Some(message@),
                    None => None,
                },
            },
            State::Rejected { response } => StateView::Rejected { response: response@ },
            State::Unavailable { error } => StateView::Unavailable {
                source: error.source,
                message: error.message@,
            },
        }
    }
}

impl View for Event {
    type V = EventView;

    open spec fn view(&self) -> EventView {
        match self {
            Event::Proceed => EventView::Proceed,
            Event::Deserialized(converted) => EventView::Deserialized(converted_view(*converted)),
            Event::ModeResolved(answer) => EventView::ModeResolved(answer_view(*answer)),
            Event::PublishAttempted(outcome) => EventView::PublishAttempted(
                unit_result_view(*outcome),
            ),
        }
    }
}

impl View for Action {
    type V = ActionView;

    open spec fn view(&self) -> ActionView {
        match self {
            Action::Continue => ActionView::Continue,
            Action::Deserialize => ActionView::Deserialize,
            Action::ResolveMode { identifier } => ActionView::ResolveMode {
                identifier: identifier@,
            },
            Action::Publish { payload } => ActionView::Publish { payload: payload@ },
            Action::Finish => ActionView::Finish,
        }
    }
}

/// The request does not say which mode the bike is in: the field is absent
/// or empty.
pub open spec fn needs_resolution(request: RequestView) -> bool {
    match request.current_mode {
        Some(mode) => mode.len() == 0,
        None => true,
    }
}

/// A position of the mode ordering, where the index is one.
pub open spec fn position(index: Option<int>) -> Option<int> {
    match index {
        Some(i) => if 0 <= i < 3 {
            Some(i)
        } else {
            None
        },
        None => None,
    }
}

impl StateView {
    /// The state is final.
    pub open spec fn is_final(self) -> bool {
        ||| self is ShortCircuited
        ||| self is Published
        ||| self is Rejected
        ||| self is Unavailable
    }

    /// The outcome of a final state: its response, or the failure of the
    /// state store with its message.
    pub open spec fn outcome(self) -> Option<Result<ResponseView, (Upstream, Seq<char>)>> {
        match self {
            StateView::ShortCircuited { response } => Some(Ok(response)),
            StateView::Published { response, .. } => Some(Ok(response)),
            StateView::Rejected { response } => Some(Ok(response)),
            StateView::Unavailable { source, message } => Some(Err((source, message))),
            _ => None,
        }
    }

    /// The failure of the publish channel that a final state has absorbed.
    pub open spec fn absorbed(self) -> Option<Seq<char>> {
        match self {
            StateView::Published { failure, .. } => failure,
            _ => None,
        }
    }

    /// What the state waits for.
    pub open spec fn pending(self) -> ActionView {
        match self {
            StateView::FieldsChecked { missing } => if missing.len() > 0 {
                ActionView::Continue
            } else {
                ActionView::Deserialize
            },
            StateView::Deserialized { decoded: Ok(request) } => if needs_resolution(request) {
                ActionView::ResolveMode { identifier: request.bike_identifier }
            } else {
                ActionView::Continue
            },
            StateView::Computed { identifier, target, steps } => if steps == 0 {
                ActionView::Continue
            } else {
                ActionView::Publish {
                    payload: PublishPayloadView { bike_identifier: identifier, steps },
                }
            },
            StateView::ShortCircuited { .. } => ActionView::Finish,
            StateView::Published { .. } => ActionView::Finish,
            StateView::Rejected { .. } => ActionView::Finish,
            StateView::Unavailable { .. } => ActionView::Finish,
            _ => ActionView::Continue,
        }
    }

    /// The number of turns that the state can still take at most.
    pub open spec fn turns_left(self) -> nat {
        match self {
            StateView::Received { .. } => 6,
            StateView::FieldsChecked { .. } => 5,
            StateView::Deserialized { .. } => 4,
            StateView::Resolved { .. } => 3,
            StateView::EnumValidated { .. } => 2,
            StateView::Computed { .. } => 1,
            _ => 0,
        }
    }

    /// The state after the turns that need no outside work: the first
    /// state from here that waits for the conversion, for the state store
    /// or for the publish channel, or is final.
    pub open spec fn settle(self) -> StateView
        decreases self.turns_left(),
    {
        if self.pending() is Continue && self.step(EventView::Proceed).turns_left()
            < self.turns_left() {
            self.step(EventView::Proceed).settle()
        } else {
            self
        }
    }

    /// The state that follows on an event. A document that misses no field
    /// is converted before anything else is done with it, and one that
    /// misses a field is never converted. A state that waits for the
    /// conversion, for the state store or for the publish channel stays as
    /// it is on any other event, and so does a final state on every event.
    pub open spec fn step(self, event: EventView) -> StateView {
        match self {
            StateView::Received { document } => StateView::FieldsChecked {
                missing: missing_names(document, request_schema()),
            },
            StateView::FieldsChecked { missing } => if missing.len() > 0 {
                StateView::Rejected {
                    response: ResponseView::MissingFields {
                        message: missing_message(missing),
                        missing_fields: missing,
                    },
                }
            } else {
                match event {
                    EventView::Deserialized(converted) => StateView::Deserialized {
                        decoded: converted,
                    },
                    _ => self,
                }
            },
            StateView::Deserialized { decoded: Err(message) } => StateView::Rejected {
                response: ResponseView::BadRequest { message },
            },
            StateView::Deserialized { decoded: Ok(request) } => if needs_resolution(request) {
                match event {
                    EventView::ModeResolved(answer) => match answered_mode(
                        request.bike_identifier,
                        answer,
                    ) {
                        Ok(mode) => StateView::Resolved {
                            identifier: request.bike_identifier,
                            target: request.change_to_mode,
                            current: mode,
                        },
                        Err(message) => StateView::Unavailable {
                            source: Upstream::StateStore,
                            message,
                        },
                    },
                    _ => self,
                }
            } else {
                StateView::Resolved {
                    identifier: request.bike_identifier,
                    target: request.change_to_mode,
                    current: request.current_mode->0,
                }
            },
            StateView::Resolved { identifier, target, current } => StateView::EnumValidated {
                identifier,
                target,
                current,
                current_index: mode_index(current),
                target_index: mode_index(target),
            },
            StateView::EnumValidated {
                identifier,
                target,
                current,
                current_index,
                target_index,
            } => match position(current_index) {
                None => StateView::Rejected {
                    response: ResponseView::InvalidCurrentMode {
                        message: invalid_current_message(current),
                    },
                },
                Some(from) => match position(target_index) {
                    None => StateView::Rejected {
                        response: ResponseView::InvalidTargetMode {
                            message: invalid_target_message(target),
                        },
                    },
                    Some(to) => StateView::Computed {
                        identifier,
                        target,
                        steps: forward_steps(from, to, 3),
                    },
                },
            },
            StateView::Computed { identifier, target, steps } => if steps == 0 {
                StateView::ShortCircuited {
                    response: ResponseView::AlreadyInMode { message: already_message(target) },
                }
            } else {
                match event {
                    EventView::PublishAttempted(outcome) => StateView::Published {
                        response: ResponseView::Processed {
                            message: processed_message(identifier),
                        },
                        failure: match outcome {
                            Ok(_) => None,
                            Err(message) => Some(message),
                        },
                    },
                    _ => self,
                }
            },
            _ => self,
        }
    }
}

/// Every turn brings a state nearer to its end, but for the states that
/// wait: those stay as they are until the event that they wait for arrives.
/// A final state stays as it is. The conversion is waited for only where
/// the document misses no field.
pub proof fn lemma_step_makes_progress(state: StateView, event: EventView)
    ensures
        state.step(event) == state || state.step(event).turns_left() < state.turns_left(),
        state.pending() is Continue ==> state.step(event).turns_left() < state.turns_left(),
        state.pending() is Finish ==> state.step(event) == state,
        state.pending() is Deserialize && event is Deserialized ==> state.step(event).turns_left()
            < state.turns_left(),
        state.pending() is ResolveMode && event is ModeResolved ==> state.step(event).turns_left()
            < state.turns_left(),
        state.pending() is Publish && event is PublishAttempted ==> state.step(event).turns_left()
            < state.turns_left(),
        state.pending() is Finish <==> state.is_final(),
        state.pending() is Deserialize <==> (state matches StateView::FieldsChecked { missing }
            && missing.len() == 0),
{
}

/// After the turns that need no outside work, a state waits for outside
/// work or is final.
pub proof fn lemma_settle_waits(state: StateView)
    ensures
        !(state.settle().pending() is Continue),
        state.settle().turns_left() <= state.turns_left(),
    decreases state.turns_left(),
{
    lemma_step_makes_progress(state, EventView::Proceed);
    if state.pending() is Continue {
        lemma_settle_waits(state.step(EventView::Proceed));
    }
}

/// The state of a request whose current mode the state store has to give,
/// on an event.
fn await_mode(identifier: String, target: String, current: Option<String>, event: Event) -> (next:
    State)
    requires
        current matches Some(mode) ==> mode@.len() == 0,
    ensures
        next@ == (StateView::Deserialized {
            decoded: Ok(
                RequestView {
                    bike_identifier: identifier@,
                    change_to_mode: target@,
                    current_mode: match current {
                        Some(mode) => Some(mode@),
                        None => None,
                    },
                },
            ),
        }).step(event@),
{
    match event {
        Event::ModeResolved(Ok(Some(mode))) => State::Resolved {
            identifier,
            target,
            current: mode,
        },
        Event::ModeResolved(Ok(None)) => {
            let mut message = "no current mode is stored for bike `".to_owned();
            message.append(identifier.as_str());
            message.append("`");
            State::Unavailable {
                error: UpstreamUnavailableError { source: Upstream::StateStore, message },
            }
        },
        Event::ModeResolved(Err(message)) => State::Unavailable {
            error: UpstreamUnavailableError { source: Upstream::StateStore, message },
        },
        _ => State::Deserialized {
            decoded: Ok(
                Request { bike_identifier: identifier, change_to_mode: target, current_mode: current },
            ),
        },
    }
}

impl State {
    /// The first state of a request with this document.
    pub fn received(document: Document) -> (state: State)
        ensures
            state@ == (StateView::Received { document: document@ }),
    {
        State::Received { document }
    }

    /// The first state of a request whose document is this JSON text.
    pub fn receive(json: &str) -> (state: State)
        ensures
            state@ == (StateView::Received { document: parsed_document(json@) }),
    {
        State::Received { document: Document::parse(json) }
    }

    /// What the state waits for.
    pub fn pending(&self) -> (action: Action)
        ensures
            action@ == self@.pending(),
    {
        match self {
            State::FieldsChecked { missing } => {
                if missing.len() > 0 {
                    Action::Continue
                } else {
                    Action::Deserialize
                }
            },
            State::Deserialized { decoded: Ok(request) } => {
                let asks = match &request.current_mode {
                    Some(mode) => mode.as_str().is_empty(),
                    None => true,
                };
                if asks {
                    Action::ResolveMode { identifier: request.bike_identifier.clone() }
                } else {
                    Action::Continue
                }
            },
            State::Computed { identifier, target, steps } => {
                if *steps == 0 {
                    Action::Continue
                } else {
                    Action::Publish {
                        payload: PublishPayload {
                            bike_identifier: identifier.clone(),
                            steps: *steps,
                        },
                    }
                }
            },
            State::ShortCircuited { .. } => Action::Finish,
            State::Published { .. } => Action::Finish,
            State::Rejected { .. } => Action::Finish,
            State::Unavailable { .. } => Action::Finish,
            _ => Action::Continue,
        }
    }

    /// The state that follows on an event.
    pub fn step(self, event: Event) -> (next: State)
        ensures
            next@ == self@.step(event@),
    {
        match self {
            State::Received { document } => {
                let missing = missing_fields(&document, &REQUEST_FIELDS);
                assert(crate::text::slice_views(REQUEST_FIELDS@) =~= request_schema());
                State::FieldsChecked { missing }
            },
            State::FieldsChecked { missing } => {
                if missing.len() > 0 {
                    State::Rejected {
                        response: Response::missing(MissingFieldsError { missing_fields: missing }),
                    }
                } else {
                    match event {
                        Event::Deserialized(Ok(request)) => State::Deserialized {
                            decoded: Ok(request),
                        },
                        Event::Deserialized(Err(message)) => State::Deserialized {
                            decoded: Err(MalformedDocumentError { message }),
                        },
                        _ => State::FieldsChecked { missing },
                    }
                }
            },
            State::Deserialized { decoded: Err(error) } => State::Rejected {
                response: Response::bad_request(error.message),
            },
            State::Deserialized { decoded: Ok(request) } => {
                let Request { bike_identifier, change_to_mode, current_mode } = request;
                match current_mode {
                    Some(current) => {
                        if current.as_str().is_empty() {
                            await_mode(bike_identifier, change_to_mode, Some(current), event)
                        } else {
                            State::Resolved {
                                identifier: bike_identifier,
                                target: change_to_mode,
                                current,
                            }
                        }
                    },
                    None => await_mode(bike_identifier, change_to_mode, None, event),
                }
            },
            State::Resolved { identifier, target, current } => {
                let current_index = index_of(current.as_str());
                let target_index = index_of(target.as_str());
                State::EnumValidated { identifier, target, current, current_index, target_index }
            },
            State::EnumValidated { identifier, target, current, current_index, target_index } => {
                match current_index {
                    Some(from) if from < MODE_COUNT => match target_index {
                        Some(to) if to < MODE_COUNT => State::Computed {
                            identifier,
                            target,
                            steps: mode_steps(from, to),
                        },
                        _ => State::Rejected {
                            response: Response::invalid_value(
                                InvalidEnumValueError {
                                    field: ModeField::ChangeToMode,
                                    value: target,
                                },
                            ),
                        },
                    },
                    _ => State::Rejected {
                        response: Response::invalid_value(
                            InvalidEnumValueError { field: ModeField::CurrentMode, value: current },
                        ),
                    },
                }
            },
            State::Computed { identifier, target, steps } => {
                if steps == 0 {
                    State::ShortCircuited { response: Response::already_in_mode(target.as_str()) }
                } else {
                    match event {
                        Event::PublishAttempted(outcome) => State::Published {
                            response: Response::processed(identifier.as_str()),
                            failure: match outcome {
                                Ok(_) => None,
                                Err(message) => Some(message),
                            },
                        },
                        _ => State::Computed { identifier, target, steps },
                    }
                }
            },
            State::ShortCircuited { response } => State::ShortCircuited { response },
            State::Published { response, failure } => State::Published { response, failure },
            State::Rejected { response } => State::Rejected { response },
            State::Unavailable { error } => State::Unavailable { error },
        }
    }

    /// Takes the turns that need no outside work, and stops at the first
    /// state that waits for the conversion, for the state store or for the
    /// publish channel, or is final.
    pub fn settle(self) -> (settled: State)
        ensures
            settled@ == self@.settle(),
            !(settled@.pending() is Continue),
    {
        let mut state = self;
        loop
            invariant
                state@.settle() == self@.settle(),
            ensures
                state@ == self@.settle(),
                !(state@.pending() is Continue),
            decreases state@.turns_left(),
        {
            proof {
                lemma_step_makes_progress(state@, EventView::Proceed);
            }
            match state.pending() {
                Action::Continue => {
                    state = state.step(Event::Proceed);
                },
                _ => {
                    break;
                },
            }
        }
        state
    }

    /// The failure of the publish channel that the state has absorbed: the
    /// mode change counts as processed, and the failure is left to be
    /// logged.
    pub fn absorbed(&self) -> (failure: Option<UpstreamUnavailableError>)
        ensures
            match failure {
                Some(error) => error.source == Upstream::PublishChannel && self@.absorbed() == Some(
                    error.message@,
                ),
                None => self@.absorbed() is None,
            },
    {
        match self {
            State::Published { failure: Some(message), .. } => Some(
                UpstreamUnavailableError {
                    source: Upstream::PublishChannel,
                    message: message.clone(),
                },
            ),
            _ => None,
        }
    }

    /// The outcome of a final state: its response, or the failure of the
    /// state store. A state that is not final has none.
    pub fn finish(self) -> (outcome: Option<Result<Response, UpstreamUnavailableError>>)
        ensures
            outcome is Some <==> self@.is_final(),
            match outcome {
                Some(Ok(response)) => self@.outcome() == Some(
                    Ok::<ResponseView, (Upstream, Seq<char>)>(response@),
                ),
                Some(Err(error)) => self@.outcome() == Some(
                    Err::<ResponseView, (Upstream, Seq<char>)>((error.source, error.message@)),
                ),
                None => self@.outcome() is None,
            },
    {
        match self {
            State::ShortCircuited { response } => Some(Ok(response)),
            State::Published { response, .. } => Some(Ok(response)),
            State::Rejected { response } => Some(Ok(response)),
            State::Unavailable { error } => Some(Err(error)),
            _ => None,
        }
    }
}

/// One turn of the machine: the state that follows on an event, and what
/// that state waits for.
pub fn advance(state: State, event: Event) -> (turn: (State, Action))
    ensures
        turn.0@ == state@.step(event@),
        turn.1@ == state@.step(event@).pending(),
{
    let next = state.step(event);
    let action = next.pending();
    (next, action)
}

} // verus!
