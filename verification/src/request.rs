//! The typed mode change request, its schema and its declaration.

use vstd::prelude::*;
use vstd::string::*;
use crate::error::MalformedDocumentError;
use crate::schema::{
    is_option_path,
    lemma_option_path_shape,
    permits_absence,
    required_among,
    required_names,
    DataDecl,
    FieldDecl,
    FieldsDecl,
    RecordDecl,
    TypeDecl,
};
use crate::text::views;
use crate::validate::ValidateFields;

verus! {

/// A request to change a bike's ride mode.
#[derive(Debug)]
pub struct Request {
    /// Identifies the bike; any string.
    pub bike_identifier: String,
    /// The name of the requested mode.
    pub change_to_mode: String,
    /// The name of the mode that the bike is in, where the caller knows it.
    pub current_mode: Option<String>,
}

/// Mathematical model of a [`Request`].
pub struct RequestView {
    pub bike_identifier: Seq<char>,
    pub change_to_mode: Seq<char>,
    pub current_mode: Option<Seq<char>>,
}

impl View for Request {
    type V = RequestView;

    open spec fn view(&self) -> RequestView {
        RequestView {
            bike_identifier: self.bike_identifier@,
            change_to_mode: self.change_to_mode@,
            current_mode: match self.current_mode {
                Some(mode) => Some(mode@),
                None => None,
            },
        }
    }
}

/// The names of the fields that a request must carry.
pub const REQUEST_FIELDS: [&'static str; 2] = ["bike_identifier", "change_to_mode"];

/// The schema of [`Request`]: the identifier and the requested mode.
pub open spec fn request_schema() -> Seq<Seq<char>> {
    seq!["bike_identifier"@, "change_to_mode"@]
}

impl ValidateFields for Request {
    open spec fn schema() -> Seq<Seq<char>> {
        request_schema()
    }

    fn required_fields() -> (fields: &'static [&'static str]) {
        let fields: &'static [&'static str] = &REQUEST_FIELDS;
        fields
    }
}

/// What became of the conversion of a document, as a model: the request,
/// or the message of the conversion's failure.
pub open spec fn decoded_view(outcome: Result<Request, MalformedDocumentError>) -> Result<
    RequestView,
    Seq<char>,
> {
    match outcome {
        Ok(request) => Ok(request@),
        Err(error) => Err(error.message@),
    }
}

/// A field without attributes whose type is the single-segment path
/// `type_path`.
fn plain_field(name: &str, type_path: &str) -> (field: FieldDecl)
    ensures
        field.name matches Some(text) && text@ == name@,
        field.attrs@.len() == 0,
        field.ty matches TypeDecl::Path(segments) && segments@.len() == 1 && segments@[0]@
            == type_path@,
{
    let mut segments: Vec<String> = Vec::new();
    segments.push(type_path.to_owned());
    FieldDecl { name: Some(name.to_owned()), attrs: Vec::new(), ty: TypeDecl::Path(segments) }
}

impl Request {
    /// The declaration of this type as schema derivation reads it: three
    /// fields without attributes, of the types `String`, `String` and
    /// `Option`. The schema that is derived from it is the one that the type
    /// states as its required fields.
    pub fn declaration() -> (decl: RecordDecl)
        ensures
            decl.name@ == "Request"@,
            required_names(decl.data) == request_schema(),
            required_names(decl.data) == <Request as ValidateFields>::schema(),
    {
        let mut fields: Vec<FieldDecl> = Vec::new();
        fields.push(plain_field("bike_identifier", "String"));
        fields.push(plain_field("change_to_mode", "String"));
        fields.push(plain_field("current_mode", "Option"));
        proof {
            reveal_strlit("String");
            reveal_strlit("Option");
            assert("String"@[0] != "Option"@[0]);
            let all = fields@;
            let two = all.drop_last();
            let one = two.drop_last();
            assert forall|i: int| 0 <= i < 2 implies !permits_absence(all[i].ty) by {
                let path = views(all[i].ty->Path_0@);
                assert(path[0] == "String"@);
                if is_option_path(path) {
                    lemma_option_path_shape(path);
                }
            }
            assert(permits_absence(all[2].ty)) by {
                assert(views(all[2].ty->Path_0@) =~= seq!["Option"@]);
            }
            assert(required_among(one.drop_last()) =~= Seq::empty());
            assert(required_among(one) =~= seq!["bike_identifier"@]);
            assert(required_among(two) =~= seq!["bike_identifier"@, "change_to_mode"@]);
        }
        RecordDecl {
            name: "Request".to_owned(),
            data: DataDecl::Struct(FieldsDecl::Named(fields)),
        }
    }
}

} // verus!
