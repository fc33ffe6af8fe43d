//! The errors of the request pipeline, beside the missing-fields error.

use vstd::prelude::*;

verus! {

/// Error returned when a document has a value of the wrong shape.
#[derive(Debug)]
pub struct MalformedDocumentError {
    /// The conversion failure, as text.
    pub message: String,
}

/// The two fields of a request that hold a mode name.
#[derive(Clone, Copy, PartialEq, Eq, Structural, Debug)]
pub enum ModeField {
    /// The field `current_mode`.
    CurrentMode,
    /// The field `change_to_mode`.
    ChangeToMode,
}

/// Error returned when a field holds a name that is no known mode.
#[derive(Debug)]
pub struct InvalidEnumValueError {
    /// The field that holds the name.
    pub field: ModeField,
    /// The offending name.
    pub value: String,
}

/// The outside systems that the pipeline relies on.
#[derive(Clone, Copy, PartialEq, Eq, Structural, Debug)]
pub enum Upstream {
    /// The store that knows each bike's current mode.
    StateStore,
    /// The channel that carries mode changes to the bikes.
    PublishChannel,
}

/// Error returned when an outside system could not be reached or had no
/// answer.
#[derive(Debug)]
pub struct UpstreamUnavailableError {
    /// The system that failed.
    pub source: Upstream,
    /// What it reported.
    pub message: String,
}

/// The name of a mode field as documents spell it.
pub open spec fn field_name(field: ModeField) -> Seq<char> {
    match field {
        ModeField::CurrentMode => "current_mode"@,
        ModeField::ChangeToMode => "change_to_mode"@,
    }
}

/// The two mode fields have different names.
pub proof fn lemma_field_names_differ()
    ensures
        field_name(ModeField::CurrentMode) != field_name(ModeField::ChangeToMode),
{
    reveal_strlit("current_mode");
    reveal_strlit("change_to_mode");
    assert("current_mode"@.len() == 12);
    assert("change_to_mode"@.len() == 14);
}

impl ModeField {
    /// The name of the field as documents spell it.
    pub fn name(self) -> (name: &'static str)
        ensures
            name@ == field_name(self),
    {
        match self {
            ModeField::CurrentMode => "current_mode",
            ModeField::ChangeToMode => "change_to_mode",
        }
    }
}

} // verus!
