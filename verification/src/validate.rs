//! Presence validation of a raw document against a field schema.
//!
//! A name of the schema is missing from a document when the document is not
//! a readable JSON object, when the object has no member of that name, or
//! when the member's value is null. Members that the schema does not name
//! are ignored.

use vstd::prelude::*;
use vstd::string::*;
use crate::document::{
    lemma_value_absent,
    lemma_value_of_other_key,
    parsed_document,
    Document,
    DocumentView,
    FieldValueView,
    MemberView,
};
use crate::error::MalformedDocumentError;
use crate::response::{Response, ResponseView};
use crate::text::{join, joined, slice_views, views};

verus! {

/// A record type with a field schema.
pub trait ValidateFields {
    /// The names of the fields that the record type requires, in declaration
    /// order. An implementation states its list here; one that does not is
    /// taken to have some fixed list of which nothing more is known.
    open spec fn schema() -> Seq<Seq<char>> {
        arbitrary()
    }

    /// The list of required field names for this type.
    fn required_fields() -> (fields: &'static [&'static str])
        ensures
            slice_views(fields@) == Self::schema(),
    ;
}

/// Error returned when some required fields are missing.
#[derive(Debug)]
pub struct MissingFieldsError {
    /// The missing names, in schema order.
    pub missing_fields: Vec<String>,
}

/// A string as `Debug` renders it: between double quotes, with its quotes,
/// backslashes and unprintable characters escaped.
pub uninterp spec fn quoted(text: Seq<char>) -> Seq<char>;

/// Renders a string with `format!("{:?}", ..)`, that is with the `Debug`
/// implementation of `str` of the standard library. The text depends on the
/// string alone.
#[verifier::external_body]
fn debug_quoted(text: &str) -> (rendered: String)
    ensures
        rendered@ == quoted(text@),
{
    format!("{:?}", text)
}

/// The names, each as `Debug` renders it.
pub open spec fn quoted_each(names: Seq<Seq<char>>) -> Seq<Seq<char>> {
    Seq::new(names.len(), |i: int| quoted(names[i]))
}

/// The text of the error for a list of missing names: the names between
/// square brackets, each quoted, separated by a comma and a space.
pub open spec fn missing_message(missing: Seq<Seq<char>>) -> Seq<char> {
    "missing required fields: ["@ + joined(quoted_each(missing), ", "@) + "]"@
}

impl MissingFieldsError {
    /// The error as text: `missing required fields: ` and the list of the
    /// names.
    pub fn message(&self) -> (text: String)
        ensures
            text@ == missing_message(views(self.missing_fields@)),
    {
        let mut rendered: Vec<String> = Vec::new();
        let ghost names = views(self.missing_fields@);
        let mut i: usize = 0;
        while i < self.missing_fields.len()
            invariant
                i <= self.missing_fields.len(),
                names == views(self.missing_fields@),
                rendered@.len() == i,
                forall|k: int| 0 <= k < i ==> (#[trigger] rendered@[k])@ == quoted(names[k]),
            decreases self.missing_fields.len() - i,
        {
            rendered.push(debug_quoted(self.missing_fields[i].as_str()));
            i += 1;
        }
        assert(views(rendered@) =~= quoted_each(names));
        let list = join(&rendered, ", ");
        let mut text = "missing required fields: [".to_owned();
        text.append(list.as_str());
        text.append("]");
        text
    }
}

/// The names of `schema` that `doc` does not provide, in schema order.
pub open spec fn missing_names(doc: DocumentView, schema: Seq<Seq<char>>) -> Seq<Seq<char>>
    decreases schema.len(),
{
    if schema.len() == 0 {
        Seq::empty()
    } else {
        let earlier = missing_names(doc, schema.drop_last());
        if doc.provides(schema.last()) {
            earlier
        } else {
            earlier.push(schema.last())
        }
    }
}

/// The missing names are the names of the schema that the document does
/// not provide, filtered out of the schema in its order.
pub proof fn lemma_missing_is_filter(doc: DocumentView, schema: Seq<Seq<char>>)
    ensures
        missing_names(doc, schema) == schema.filter(|name: Seq<char>| !doc.provides(name)),
    decreases schema.len(),
{
    reveal(Seq::filter);
    if schema.len() > 0 {
        lemma_missing_is_filter(doc, schema.drop_last());
    }
}

/// A name is reported missing exactly when the schema holds it and the
/// document does not provide it.
pub proof fn lemma_missing_exactly(doc: DocumentView, schema: Seq<Seq<char>>, name: Seq<char>)
    ensures
        missing_names(doc, schema).contains(name) <==> schema.contains(name) && !doc.provides(
            name,
        ),
    decreases schema.len(),
{
    if schema.len() > 0 {
        let earlier = schema.drop_last();
        lemma_missing_exactly(doc, earlier, name);
        let found = missing_names(doc, earlier);
        if schema.contains(name) {
            let at = choose|i: int| 0 <= i < schema.len() && schema[i] == name;
            if at < schema.len() - 1 {
                assert(earlier[at] == name);
            }
        }
        if earlier.contains(name) {
            let at = choose|i: int| 0 <= i < earlier.len() && earlier[i] == name;
            assert(schema[at] == name);
        }
        assert(schema[schema.len() - 1] == schema.last());
        if !doc.provides(schema.last()) {
            let all = found.push(schema.last());
            assert(all[found.len() as int] == schema.last());
            if found.contains(name) {
                let at = choose|i: int| 0 <= i < found.len() && found[i] == name;
                assert(all[at] == name);
            }
            if all.contains(name) {
                let at = choose|i: int| 0 <= i < all.len() && all[i] == name;
                if at < found.len() {
                    assert(found[at] == name);
                }
            }
        }
    }
}

/// A document that provides none of the names of a schema misses the whole
/// schema.
pub proof fn lemma_nothing_provided(doc: DocumentView, schema: Seq<Seq<char>>)
    requires
        forall|i: int| 0 <= i < schema.len() ==> !doc.provides(#[trigger] schema[i]),
    ensures
        missing_names(doc, schema) == schema,
    decreases schema.len(),
{
    if schema.len() > 0 {
        let earlier = schema.drop_last();
        assert forall|i: int| 0 <= i < earlier.len() implies !doc.provides(#[trigger] earlier[i]) by {
            assert(earlier[i] == schema[i]);
        }
        lemma_nothing_provided(doc, earlier);
        assert(schema.last() == schema[schema.len() - 1]);
        assert(earlier.push(schema.last()) =~= schema);
    } else {
        assert(missing_names(doc, schema) =~= schema);
    }
}

/// The empty object misses the whole schema.
pub proof fn lemma_empty_object_misses_all(schema: Seq<Seq<char>>)
    ensures
        missing_names(DocumentView::Object(Seq::empty()), schema) == schema,
{
    let doc = DocumentView::Object(Seq::empty());
    assert forall|i: int| 0 <= i < schema.len() implies !doc.provides(#[trigger] schema[i]) by {
        lemma_value_absent(Seq::empty(), schema[i]);
    }
    lemma_nothing_provided(doc, schema);
}

/// A text that is not JSON, or is JSON but not an object, misses the whole
/// schema.
pub proof fn lemma_no_object_misses_all(doc: DocumentView, schema: Seq<Seq<char>>)
    requires
        !(doc is Object),
    ensures
        missing_names(doc, schema) == schema,
{
    lemma_nothing_provided(doc, schema);
}

/// Validation succeeds exactly when the document provides every name of
/// the schema. Nothing is asked of members under other keys.
pub proof fn lemma_complete_document_validates(doc: DocumentView, schema: Seq<Seq<char>>)
    ensures
        missing_names(doc, schema).len() == 0 <==> (forall|i: int|
            0 <= i < schema.len() ==> doc.provides(#[trigger] schema[i])),
    decreases schema.len(),
{
    if schema.len() > 0 {
        let earlier = schema.drop_last();
        lemma_complete_document_validates(doc, earlier);
        assert(schema.last() == schema[schema.len() - 1]);
        if missing_names(doc, schema).len() == 0 {
            assert forall|i: int| 0 <= i < schema.len() implies doc.provides(
                #[trigger] schema[i],
            ) by {
                if i < schema.len() - 1 {
                    assert(earlier[i] == schema[i]);
                }
            }
        }
        if forall|i: int| 0 <= i < schema.len() ==> doc.provides(#[trigger] schema[i]) {
            assert forall|i: int| 0 <= i < earlier.len() implies doc.provides(
                #[trigger] earlier[i],
            ) by {
                assert(earlier[i] == schema[i]);
            }
        }
    }
}

/// Two documents that provide the same names of a schema miss the same
/// names: what they hold under other keys makes no difference.
pub proof fn lemma_other_keys_ignored(a: DocumentView, b: DocumentView, schema: Seq<Seq<char>>)
    requires
        forall|i: int| 0 <= i < schema.len() ==> a.provides(#[trigger] schema[i]) == b.provides(
            schema[i],
        ),
    ensures
        missing_names(a, schema) == missing_names(b, schema),
    decreases schema.len(),
{
    if schema.len() > 0 {
        let earlier = schema.drop_last();
        assert forall|i: int| 0 <= i < earlier.len() implies a.provides(#[trigger] earlier[i])
            == b.provides(earlier[i]) by {
            assert(earlier[i] == schema[i]);
        }
        lemma_other_keys_ignored(a, b, earlier);
        assert(schema.last() == schema[schema.len() - 1]);
    }
}

/// A member under a key that the schema does not name changes nothing in
/// what is missing.
pub proof fn lemma_extra_member_ignored(
    members: Seq<MemberView>,
    extra: MemberView,
    schema: Seq<Seq<char>>,
)
    requires
        !schema.contains(extra.key),
    ensures
        missing_names(DocumentView::Object(members.push(extra)), schema) == missing_names(
            DocumentView::Object(members),
            schema,
        ),
{
    let with = DocumentView::Object(members.push(extra));
    let without = DocumentView::Object(members);
    assert forall|i: int| 0 <= i < schema.len() implies with.provides(#[trigger] schema[i])
        == without.provides(schema[i]) by {
        assert(schema.contains(schema[i]));
        lemma_value_of_other_key(members, extra, schema[i]);
    }
    lemma_other_keys_ignored(with, without, schema);
}

/// A name of the schema whose value in the document is null is reported
/// missing.
pub proof fn lemma_null_is_missing(doc: DocumentView, schema: Seq<Seq<char>>, name: Seq<char>)
    requires
        schema.contains(name),
        doc.get(name) == Some(FieldValueView::Null),
    ensures
        missing_names(doc, schema).contains(name),
{
    lemma_missing_exactly(doc, schema, name);
}

/// The outcome of validation: success when nothing is missing, and
/// otherwise the error that lists what is.
pub open spec fn validation_holds(
    outcome: Result<(), MissingFieldsError>,
    doc: DocumentView,
    schema: Seq<Seq<char>>,
) -> bool {
    match outcome {
        Ok(_) => missing_names(doc, schema).len() == 0,
        Err(error) => {
            &&& views(error.missing_fields@) == missing_names(doc, schema)
            &&& missing_names(doc, schema).len() > 0
        },
    }
}

/// The names of `schema` that `doc` does not provide, in schema order.
pub fn missing_fields(doc: &Document, schema: &[&str]) -> (missing: Vec<String>)
    ensures
        views(missing@) == missing_names(doc@, slice_views(schema@)),
{
    let mut missing: Vec<String> = Vec::new();
    let mut i: usize = 0;
    let ghost names = slice_views(schema@);
    while i < schema.len()
        invariant
            i <= schema.len(),
            names == slice_views(schema@),
            views(missing@) == missing_names(doc@, names.take(i as int)),
        decreases schema.len() - i,
    {
        assert(names.take(i + 1).drop_last() =~= names.take(i as int));
        if !doc.provides(schema[i]) {
            missing.push(schema[i].to_owned());
        }
        i += 1;
    }
    assert(names.take(i as int) =~= names);
    missing
}

/// Checks a parsed document against a schema.
pub fn validate_document(doc: &Document, schema: &[&str]) -> (outcome: Result<
    (),
    MissingFieldsError,
>)
    ensures
        validation_holds(outcome, doc@, slice_views(schema@)),
{
    let missing = missing_fields(doc, schema);
    if missing.len() == 0 {
        Ok(())
    } else {
        Err(MissingFieldsError { missing_fields: missing })
    }
}

/// Checks that a JSON text is an object in which every name of `schema` is
/// present and non-null.
pub fn validate_json(json: &str, schema: &[&str]) -> (outcome: Result<(), MissingFieldsError>)
    ensures
        validation_holds(outcome, parsed_document(json@), slice_views(schema@)),
{
    let doc = Document::parse(json);
    validate_document(&doc, schema)
}

/// Check that a JSON object has all of `T::required_fields()` present and
/// non-null.
pub fn validate_json_for_type<T: ValidateFields>(json: &str) -> (outcome: Result<
    (),
    MissingFieldsError,
>)
    ensures
        validation_holds(outcome, parsed_document(json@), T::schema()),
{
    validate_json(json, T::required_fields())
}

/// Why a document was not accepted as a record.
#[derive(Debug)]
pub enum RequestError {
    /// Required fields are absent or null.
    MissingFields(MissingFieldsError),
    /// All required fields are there, but a value has the wrong shape.
    Malformed(MalformedDocumentError),
}

/// What becomes of a document and the attempt to convert it: the missing
/// fields come first; a document that misses none yields the converted
/// record, or the conversion failure as a malformed-document error.
pub open spec fn acceptance_holds<T>(
    outcome: Result<T, RequestError>,
    doc: DocumentView,
    schema: Seq<Seq<char>>,
    converted: Result<T, String>,
) -> bool {
    if missing_names(doc, schema).len() > 0 {
        &&& outcome matches Err(RequestError::MissingFields(error))
        &&& views(error.missing_fields@) == missing_names(doc, schema)
    } else {
        match converted {
            Ok(record) => outcome == Ok::<T, RequestError>(record),
            Err(message) => {
                &&& outcome matches Err(RequestError::Malformed(error))
                &&& error.message@ == message@
            },
        }
    }
}

/// The response to the outcome of validation and conversion.
pub open spec fn response_to<T>(outcome: Result<T, RequestError>) -> ResponseView {
    match outcome {
        Ok(_) => ResponseView::Accepted,
        Err(RequestError::MissingFields(error)) => ResponseView::MissingFields {
            message: missing_message(views(error.missing_fields@)),
            missing_fields: views(error.missing_fields@),
        },
        Err(RequestError::Malformed(error)) => ResponseView::BadRequest {
            message: error.message@,
        },
    }
}

/// Validates a parsed document against a schema and, where nothing is
/// missing, accepts what the conversion of the same document into a record
/// gave: the record, or the conversion's failure message.
pub fn accept_document<T>(doc: &Document, schema: &[&str], converted: Result<T, String>) -> (outcome:
    Result<T, RequestError>)
    ensures
        acceptance_holds(outcome, doc@, slice_views(schema@), converted),
{
    match validate_document(doc, schema) {
        Err(error) => Err(RequestError::MissingFields(error)),
        Ok(_) => match converted {
            Ok(record) => Ok(record),
            Err(message) => Err(RequestError::Malformed(MalformedDocumentError { message })),
        },
    }
}

/// Validate and then deserialize in one shot. `converted` is what the
/// conversion of `json` into a `T` gave: the record, or the failure message.
pub fn validate_and_deserialize<T: ValidateFields>(json: &str, converted: Result<T, String>) -> (outcome:
    Result<T, RequestError>)
    ensures
        acceptance_holds(outcome, parsed_document(json@), T::schema(), converted),
{
    let doc = Document::parse(json);
    accept_document(&doc, T::required_fields(), converted)
}

/// The response to the outcome of validation and conversion: status 200
/// for a record, and status 400 with the missing fields or with the
/// conversion failure otherwise.
pub fn respond<T>(outcome: Result<T, RequestError>) -> (response: Response)
    ensures
        response@ == response_to(outcome),
{
    match outcome {
        Ok(_) => Response::Accepted,
        Err(RequestError::MissingFields(error)) => Response::missing(error),
        Err(RequestError::Malformed(error)) => Response::bad_request(error.message),
    }
}

/// The response to a document and the attempt to convert it.
pub open spec fn handled<T>(
    doc: DocumentView,
    schema: Seq<Seq<char>>,
    converted: Result<T, String>,
) -> ResponseView {
    if missing_names(doc, schema).len() > 0 {
        ResponseView::MissingFields {
            message: missing_message(missing_names(doc, schema)),
            missing_fields: missing_names(doc, schema),
        }
    } else {
        match converted {
            Ok(_) => ResponseView::Accepted,
            Err(message) => ResponseView::BadRequest { message: message@ },
        }
    }
}

/// Validates a JSON text as a record of type `T` and answers with a
/// response. `converted` is what the conversion of `json` into a `T` gave.
pub fn handle_json_request<T: ValidateFields>(json: &str, converted: Result<T, String>) -> (response:
    Response)
    ensures
        response@ == handled(parsed_document(json@), T::schema(), converted),
{
    respond(validate_and_deserialize::<T>(json, converted))
}

} // verus!
