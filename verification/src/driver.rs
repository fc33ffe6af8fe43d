//! The pipeline in the hands of its driver, and what holds of every run.
//!
//! A driver does what each state waits for: it converts the document when
//! the state waits for the conversion, asks the state store when the state
//! waits for a mode, attempts to publish when the state waits for that, and
//! hands the result back. The conversion gives any result, and the store
//! and the channel are any functions; what is proved here holds whatever
//! they give.

use vstd::prelude::*;
use crate::document::DocumentView;
use crate::error::{field_name, lemma_field_names_differ, ModeField, Upstream};
use crate::modes::{forward_steps, lemma_forward_steps_arrive, mode_index};
use crate::pipeline::{
    answered_mode,
    needs_resolution,
    ActionView,
    EventView,
    PublishPayloadView,
    StateView,
};
use crate::request::{request_schema, RequestView};
use crate::response::{
    already_message,
    invalid_current_message,
    invalid_target_message,
    processed_message,
    ResponseView,
};
use crate::validate::{missing_message, missing_names};

verus! {

/// What a run came to: its last state, how often the document was
/// converted, and what was asked of the state store and of the publish
/// channel on the way, in order.
pub struct Trace {
    pub last: StateView,
    pub conversions: nat,
    pub resolves: Seq<Seq<char>>,
    pub publishes: Seq<PublishPayloadView>,
}

/// The run that ends where it begins.
pub open spec fn ended(state: StateView) -> Trace {
    Trace { last: state, conversions: 0, resolves: Seq::empty(), publishes: Seq::empty() }
}

/// At most `turns` turns of the pipeline from `state`, with a driver whose
/// conversion of the document gives `converted`, and which asks `store` for
/// the mode of a bike and `channel` to publish a payload.
pub open spec fn run(
    state: StateView,
    converted: Result<RequestView, Seq<char>>,
    store: spec_fn(Seq<char>) -> Result<Option<Seq<char>>, Seq<char>>,
    channel: spec_fn(PublishPayloadView) -> Result<(), Seq<char>>,
    turns: nat,
) -> Trace
    decreases turns,
{
    if turns == 0 {
        ended(state)
    } else {
        match state.pending() {
            ActionView::Finish => ended(state),
            ActionView::Continue => run(
                state.step(EventView::Proceed),
                converted,
                store,
                channel,
                (turns - 1) as nat,
            ),
            ActionView::Deserialize => {
                let rest = run(
                    state.step(EventView::Deserialized(converted)),
                    converted,
                    store,
                    channel,
                    (turns - 1) as nat,
                );
                Trace { conversions: 1 + rest.conversions, ..rest }
            },
            ActionView::ResolveMode { identifier } => {
                let rest = run(
                    state.step(EventView::ModeResolved(store(identifier))),
                    converted,
                    store,
                    channel,
                    (turns - 1) as nat,
                );
                Trace { resolves: seq![identifier] + rest.resolves, ..rest }
            },
            ActionView::Publish { payload } => {
                let rest = run(
                    state.step(EventView::PublishAttempted(channel(payload))),
                    converted,
                    store,
                    channel,
                    (turns - 1) as nat,
                );
                Trace { publishes: seq![payload] + rest.publishes, ..rest }
            },
        }
    }
}

/// The run of a request with this document, from its arrival to its end.
pub open spec fn handle(
    document: DocumentView,
    converted: Result<RequestView, Seq<char>>,
    store: spec_fn(Seq<char>) -> Result<Option<Seq<char>>, Seq<char>>,
    channel: spec_fn(PublishPayloadView) -> Result<(), Seq<char>>,
) -> Trace {
    run(StateView::Received { document }, converted, store, channel, 6)
}

/// The request of a document, where the document misses no required field
/// and its conversion gave a request.
pub open spec fn admitted(
    document: DocumentView,
    converted: Result<RequestView, Seq<char>>,
) -> Option<RequestView> {
    if missing_names(document, request_schema()).len() > 0 {
        None
    } else {
        match converted {
            Ok(request) => Some(request),
            Err(_) => None,
        }
    }
}

/// The current mode of a request: the one it names, or else the answer of
/// the state store for its bike.
pub open spec fn current_of(
    request: RequestView,
    store: spec_fn(Seq<char>) -> Result<Option<Seq<char>>, Seq<char>>,
) -> Result<Seq<char>, Seq<char>> {
    if needs_resolution(request) {
        answered_mode(request.bike_identifier, store(request.bike_identifier))
    } else {
        Ok(request.current_mode->0)
    }
}

/// The last state of a request whose current mode is known.
pub open spec fn settled(
    identifier: Seq<char>,
    target: Seq<char>,
    current: Seq<char>,
    channel: spec_fn(PublishPayloadView) -> Result<(), Seq<char>>,
) -> StateView {
    match mode_index(current) {
        None => StateView::Rejected {
            response: ResponseView::InvalidCurrentMode {
                message: invalid_current_message(current),
            },
        },
        Some(from) => match mode_index(target) {
            None => StateView::Rejected {
                response: ResponseView::InvalidTargetMode {
                    message: invalid_target_message(target),
                },
            },
            Some(to) => if forward_steps(from, to, 3) == 0 {
                StateView::ShortCircuited {
                    response: ResponseView::AlreadyInMode { message: already_message(target) },
                }
            } else {
                StateView::Published {
                    response: ResponseView::Processed { message: processed_message(identifier) },
                    failure: match channel(
                        PublishPayloadView {
                            bike_identifier: identifier,
                            steps: forward_steps(from, to, 3),
                        },
                    ) {
                        Ok(_) => None,
                        Err(message) => Some(message),
                    },
                }
            },
        },
    }
}

/// The last state of a request with this document.
pub open spec fn verdict(
    document: DocumentView,
    converted: Result<RequestView, Seq<char>>,
    store: spec_fn(Seq<char>) -> Result<Option<Seq<char>>, Seq<char>>,
    channel: spec_fn(PublishPayloadView) -> Result<(), Seq<char>>,
) -> StateView {
    let missing = missing_names(document, request_schema());
    if missing.len() > 0 {
        StateView::Rejected {
            response: ResponseView::MissingFields {
                message: missing_message(missing),
                missing_fields: missing,
            },
        }
    } else {
        match converted {
            Err(message) => StateView::Rejected { response: ResponseView::BadRequest { message } },
            Ok(request) => match current_of(request, store) {
                Err(message) => StateView::Unavailable { source: Upstream::StateStore, message },
                Ok(current) => settled(
                    request.bike_identifier,
                    request.change_to_mode,
                    current,
                    channel,
                ),
            },
        }
    }
}

/// The payloads that a request with known current mode has published: one
/// where both names are modes and the distance between them is not zero,
/// and none otherwise.
pub open spec fn published(identifier: Seq<char>, target: Seq<char>, current: Seq<char>) -> Seq<
    PublishPayloadView,
> {
    match (mode_index(current), mode_index(target)) {
        (Some(from), Some(to)) => if forward_steps(from, to, 3) == 0 {
            Seq::empty()
        } else {
            seq![
                PublishPayloadView { bike_identifier: identifier, steps: forward_steps(from, to, 3) },
            ]
        },
        _ => Seq::empty(),
    }
}

/// From the state in which the current mode is known, three turns lead to
/// the last state, and the channel is asked to publish at most once.
pub proof fn lemma_run_from_resolved(
    identifier: Seq<char>,
    target: Seq<char>,
    current: Seq<char>,
    converted: Result<RequestView, Seq<char>>,
    store: spec_fn(Seq<char>) -> Result<Option<Seq<char>>, Seq<char>>,
    channel: spec_fn(PublishPayloadView) -> Result<(), Seq<char>>,
    turns: nat,
)
    requires
        turns >= 3,
    ensures
        run(StateView::Resolved { identifier, target, current }, converted, store, channel, turns)
            == (Trace {
            last: settled(identifier, target, current, channel),
            conversions: 0,
            resolves: Seq::empty(),
            publishes: published(identifier, target, current),
        }),
{
    reveal_with_fuel(run, 4);
    if let (Some(from), Some(to)) = (mode_index(current), mode_index(target)) {
        lemma_forward_steps_arrive(from, to, 3);
    }
}

/// Every run of a request ends in a final state within six turns: in the
/// verdict on its document. The document is converted only where it misses
/// no required field, and then once. The store is asked only by a request
/// that does not name its current mode, and then once, for the request's
/// bike. The channel is asked only where the distance between the modes is
/// not zero, and then once, with the bike and the distance.
pub proof fn lemma_handle(
    document: DocumentView,
    converted: Result<RequestView, Seq<char>>,
    store: spec_fn(Seq<char>) -> Result<Option<Seq<char>>, Seq<char>>,
    channel: spec_fn(PublishPayloadView) -> Result<(), Seq<char>>,
)
    ensures
        handle(document, converted, store, channel).last == verdict(
            document,
            converted,
            store,
            channel,
        ),
        handle(document, converted, store, channel).last.is_final(),
        handle(document, converted, store, channel).conversions == if missing_names(
            document,
            request_schema(),
        ).len() > 0 {
            0nat
        } else {
            1nat
        },
        handle(document, converted, store, channel).resolves == match admitted(
            document,
            converted,
        ) {
            Some(request) => if needs_resolution(request) {
                seq![request.bike_identifier]
            } else {
                Seq::empty()
            },
            None => Seq::empty(),
        },
        handle(document, converted, store, channel).publishes == match admitted(
            document,
            converted,
        ) {
            Some(request) => match current_of(request, store) {
                Ok(current) => published(request.bike_identifier, request.change_to_mode, current),
                Err(_) => Seq::empty(),
            },
            None => Seq::empty(),
        },
{
    reveal_with_fuel(run, 4);
    if let Some(request) = admitted(document, converted) {
        if let Ok(current) = current_of(request, store) {
            lemma_run_from_resolved(
                request.bike_identifier,
                request.change_to_mode,
                current,
                converted,
                store,
                channel,
                3,
            );
        }
    }
}

/// The field that the last state of a run declares invalid, if it does.
pub open spec fn invalid_field(last: StateView) -> Option<Seq<char>> {
    match last {
        StateView::Rejected { response } => response.invalid_field(),
        _ => None,
    }
}

/// An unknown current mode is reported under the name `current_mode`, and
/// an unknown requested mode under the name `change_to_mode`; the two names
/// differ, and no other run reports an invalid field. Where both modes are
/// unknown, the current mode is the one reported.
pub proof fn lemma_invalid_field_named(
    document: DocumentView,
    converted: Result<RequestView, Seq<char>>,
    store: spec_fn(Seq<char>) -> Result<Option<Seq<char>>, Seq<char>>,
    channel: spec_fn(PublishPayloadView) -> Result<(), Seq<char>>,
)
    ensures
        field_name(ModeField::CurrentMode) != field_name(ModeField::ChangeToMode),
        invalid_field(handle(document, converted, store, channel).last) == match admitted(
            document,
            converted,
        ) {
            Some(request) => match current_of(request, store) {
                Ok(current) => if mode_index(current) is None {
                    Some(field_name(ModeField::CurrentMode))
                } else if mode_index(request.change_to_mode) is None {
                    Some(field_name(ModeField::ChangeToMode))
                } else {
                    None
                },
                Err(_) => None,
            },
            None => None,
        },
{
    lemma_field_names_differ();
    lemma_handle(document, converted, store, channel);
}

/// A document that misses a required field is rejected with the missing
/// names and is never converted; a document that misses none and does not
/// convert is rejected as a bad request with the message of the conversion.
pub proof fn lemma_conversion_after_validation(
    document: DocumentView,
    converted: Result<RequestView, Seq<char>>,
    store: spec_fn(Seq<char>) -> Result<Option<Seq<char>>, Seq<char>>,
    channel: spec_fn(PublishPayloadView) -> Result<(), Seq<char>>,
)
    ensures
        missing_names(document, request_schema()).len() > 0 ==> {
            &&& handle(document, converted, store, channel).conversions == 0
            &&& handle(document, converted, store, channel).last == (StateView::Rejected {
                response: ResponseView::MissingFields {
                    message: missing_message(missing_names(document, request_schema())),
                    missing_fields: missing_names(document, request_schema()),
                },
            })
        },
        missing_names(document, request_schema()).len() == 0 ==> {
            &&& handle(document, converted, store, channel).conversions == 1
            &&& converted matches Err(message) ==> handle(document, converted, store, channel).last
                == (StateView::Rejected { response: ResponseView::BadRequest { message } })
        },
{
    lemma_handle(document, converted, store, channel);
}

/// Where a request does not name its current mode, the answer of the state
/// store stands in for it: the run ends as that of a request which names
/// the answer as its current mode. Where the store fails or does not know
/// the bike, the run ends in `Unavailable` with the reason.
pub proof fn lemma_store_answer_used(
    document: DocumentView,
    converted: Result<RequestView, Seq<char>>,
    store: spec_fn(Seq<char>) -> Result<Option<Seq<char>>, Seq<char>>,
    channel: spec_fn(PublishPayloadView) -> Result<(), Seq<char>>,
)
    requires
        admitted(document, converted) matches Some(request) && needs_resolution(request),
    ensures
        handle(document, converted, store, channel).resolves == seq![
            admitted(document, converted)->0.bike_identifier,
        ],
        handle(document, converted, store, channel).last == match answered_mode(
            admitted(document, converted)->0.bike_identifier,
            store(admitted(document, converted)->0.bike_identifier),
        ) {
            Ok(mode) => settled(
                admitted(document, converted)->0.bike_identifier,
                admitted(document, converted)->0.change_to_mode,
                mode,
                channel,
            ),
            Err(message) => StateView::Unavailable { source: Upstream::StateStore, message },
        },
{
    lemma_handle(document, converted, store, channel);
}

/// A request that names its current mode never reaches the state store.
pub proof fn lemma_named_mode_not_resolved(
    document: DocumentView,
    converted: Result<RequestView, Seq<char>>,
    store: spec_fn(Seq<char>) -> Result<Option<Seq<char>>, Seq<char>>,
    channel: spec_fn(PublishPayloadView) -> Result<(), Seq<char>>,
)
    requires
        admitted(document, converted) matches Some(request) && !needs_resolution(request),
    ensures
        handle(document, converted, store, channel).resolves.len() == 0,
        handle(document, converted, store, channel).last == settled(
            admitted(document, converted)->0.bike_identifier,
            admitted(document, converted)->0.change_to_mode,
            admitted(document, converted)->0.current_mode->0,
            channel,
        ),
{
    lemma_handle(document, converted, store, channel);
}

/// Nothing is published where the distance is zero, and exactly one
/// payload, with the bike and the distance, where it is not. A failure of
/// the channel is absorbed: the run ends with the same outcome as where the
/// channel succeeds, and keeps what the channel reported.
pub proof fn lemma_published_once(
    identifier: Seq<char>,
    target: Seq<char>,
    steps: int,
    converted: Result<RequestView, Seq<char>>,
    store: spec_fn(Seq<char>) -> Result<Option<Seq<char>>, Seq<char>>,
    channel: spec_fn(PublishPayloadView) -> Result<(), Seq<char>>,
    other: spec_fn(PublishPayloadView) -> Result<(), Seq<char>>,
)
    ensures
        run(
            StateView::Computed { identifier, target, steps },
            converted,
            store,
            channel,
            1,
        ).publishes == if steps == 0 {
            Seq::<PublishPayloadView>::empty()
        } else {
            seq![PublishPayloadView { bike_identifier: identifier, steps }]
        },
        run(
            StateView::Computed { identifier, target, steps },
            converted,
            store,
            channel,
            1,
        ).last.outcome() == run(
            StateView::Computed { identifier, target, steps },
            converted,
            store,
            other,
            1,
        ).last.outcome(),
        run(
            StateView::Computed { identifier, target, steps },
            converted,
            store,
            channel,
            1,
        ).last.is_final(),
        run(
            StateView::Computed { identifier, target, steps },
            converted,
            store,
            channel,
            1,
        ).last.absorbed() == if steps == 0 {
            None
        } else {
            match channel(PublishPayloadView { bike_identifier: identifier, steps }) {
                Ok(_) => None,
                Err(message) => Some(message),
            }
        },
{
    reveal_with_fuel(run, 2);
}

/// The outcome of a request does not depend on what the publish channel
/// answers.
pub proof fn lemma_outcome_ignores_channel(
    document: DocumentView,
    converted: Result<RequestView, Seq<char>>,
    store: spec_fn(Seq<char>) -> Result<Option<Seq<char>>, Seq<char>>,
    channel: spec_fn(PublishPayloadView) -> Result<(), Seq<char>>,
    other: spec_fn(PublishPayloadView) -> Result<(), Seq<char>>,
)
    ensures
        handle(document, converted, store, channel).last.outcome() == handle(
            document,
            converted,
            store,
            other,
        ).last.outcome(),
        handle(document, converted, store, channel).resolves == handle(
            document,
            converted,
            store,
            other,
        ).resolves,
        handle(document, converted, store, channel).publishes == handle(
            document,
            converted,
            store,
            other,
        ).publishes,
{
    lemma_handle(document, converted, store, channel);
    lemma_handle(document, converted, store, other);
}

} // verus!
