//! The raw request document, as far as validation reads it.
//!
//! A document is JSON text. Of its parsed form the library reads only the
//! top level: whether the text parsed at all, whether it is an object, and
//! for each member of the object its key and whether its value is null.

use vstd::prelude::*;
use serde_json::Value;
use crate::text::str_eq;

verus! {

/// The value of one member of a JSON object.
#[derive(Debug)]
pub enum FieldValue {
    /// The JSON value `null`.
    Null,
    /// Any other value: a boolean, a number, a string, an array or an
    /// object.
    Other,
}

/// One member of a JSON object.
#[derive(Debug)]
pub struct Member {
    pub key: String,
    pub value: FieldValue,
}

/// A raw document after parsing.
#[derive(Debug)]
pub enum Document {
    /// The text is not JSON.
    Unreadable,
    /// The text is JSON, but not an object.
    NotObject,
    /// The text is a JSON object with these members.
    Object(Vec<Member>),
}

/// Mathematical model of a [`FieldValue`].
pub enum FieldValueView {
    Null,
    Other,
}

/// Mathematical model of a [`Member`].
pub struct MemberView {
    pub key: Seq<char>,
    pub value: FieldValueView,
}

/// Mathematical model of a [`Document`].
pub enum DocumentView {
    Unreadable,
    NotObject,
    Object(Seq<MemberView>),
}

impl View for FieldValue {
    type V = FieldValueView;

    open spec fn view(&self) -> FieldValueView {
        match self {
            FieldValue::Null => FieldValueView::Null,
            FieldValue::Other => FieldValueView::Other,
        }
    }
}

impl View for Member {
    type V = MemberView;

    open spec fn view(&self) -> MemberView {
        MemberView { key: self.key@, value: self.value@ }
    }
}

/// The models of a sequence of members, in order.
pub open spec fn member_views(members: Seq<Member>) -> Seq<MemberView> {
    Seq::new(members.len(), |i: int| members[i]@)
}

impl View for Document {
    type V = DocumentView;

    open spec fn view(&self) -> DocumentView {
        match self {
            Document::Unreadable => DocumentView::Unreadable,
            Document::NotObject => DocumentView::NotObject,
            Document::Object(members) => DocumentView::Object(member_views(members@)),
        }
    }
}

/// `at` is the position of the first member with key `key`.
pub open spec fn first_with_key(members: Seq<MemberView>, key: Seq<char>, at: int) -> bool {
    &&& 0 <= at < members.len()
    &&& members[at].key == key
    &&& forall|j: int| 0 <= j < at ==> (#[trigger] members[j]).key != key
}

/// Some member has key `key`.
pub open spec fn has_key(members: Seq<MemberView>, key: Seq<char>) -> bool {
    exists|at: int| first_with_key(members, key, at)
}

/// At most one position is the first with a given key.
pub proof fn lemma_first_with_key_unique(members: Seq<MemberView>, key: Seq<char>, a: int, b: int)
    requires
        first_with_key(members, key, a),
        first_with_key(members, key, b),
    ensures
        a == b,
{
    if a < b {
        assert(members[a].key != key);
    } else if b < a {
        assert(members[b].key != key);
    }
}

/// Where `at` is the first position with key `key`, the value under the key
/// is the value found there.
pub proof fn lemma_value_at_first(members: Seq<MemberView>, key: Seq<char>, at: int)
    requires
        first_with_key(members, key, at),
    ensures
        value_of(members, key) == Some(members[at].value),
{
    let chosen = choose|c: int| first_with_key(members, key, c);
    lemma_first_with_key_unique(members, key, chosen, at);
}

/// Where no member has key `key`, there is no value under the key.
pub proof fn lemma_value_absent(members: Seq<MemberView>, key: Seq<char>)
    requires
        forall|j: int| 0 <= j < members.len() ==> (#[trigger] members[j]).key != key,
    ensures
        value_of(members, key) is None,
{
    if has_key(members, key) {
        let chosen = choose|c: int| first_with_key(members, key, c);
        assert(members[chosen].key == key);
    }
}

/// A member that is added behind the others changes nothing under any key
/// but its own.
pub proof fn lemma_value_of_other_key(members: Seq<MemberView>, extra: MemberView, key: Seq<char>)
    requires
        extra.key != key,
    ensures
        value_of(members.push(extra), key) == value_of(members, key),
{
    let longer = members.push(extra);
    if has_key(members, key) {
        let at = choose|c: int| first_with_key(members, key, c);
        assert(first_with_key(longer, key, at)) by {
            assert forall|j: int| 0 <= j < at implies (#[trigger] longer[j]).key != key by {
                assert(longer[j] == members[j]);
            }
        }
        lemma_value_at_first(longer, key, at);
        lemma_value_at_first(members, key, at);
    } else {
        assert forall|j: int| 0 <= j < longer.len() implies (#[trigger] longer[j]).key != key by {
            if j < members.len() {
                assert(longer[j] == members[j]);
                lemma_no_key_before(members, key, j);
            }
        }
        lemma_value_absent(longer, key);
    }
}

/// Where no member has key `key`, no member at any place has it.
pub proof fn lemma_no_key_before(members: Seq<MemberView>, key: Seq<char>, at: int)
    requires
        !has_key(members, key),
        0 <= at < members.len(),
    ensures
        members[at].key != key,
    decreases at,
{
    if members[at].key == key {
        if forall|j: int| 0 <= j < at ==> (#[trigger] members[j]).key != key {
            assert(first_with_key(members, key, at));
        } else {
            let j = choose|j: int| 0 <= j < at && (#[trigger] members[j]).key == key;
            lemma_no_key_before(members, key, j);
        }
    }
}

/// The value of the first member with key `key`, if there is one.
pub open spec fn value_of(members: Seq<MemberView>, key: Seq<char>) -> Option<FieldValueView> {
    if has_key(members, key) {
        Some(members[choose|at: int| first_with_key(members, key, at)].value)
    } else {
        None
    }
}

impl DocumentView {
    /// The value under `key` when the document is an object that has the key.
    pub open spec fn get(self, key: Seq<char>) -> Option<FieldValueView> {
        match self {
            DocumentView::Object(members) => value_of(members, key),
            _ => None,
        }
    }

    /// The document is an object in which `key` has a value other than null.
    pub open spec fn provides(self, key: Seq<char>) -> bool {
        self.get(key) matches Some(value) && value != FieldValueView::Null
    }
}

/// What `serde_json::from_str::<serde_json::Value>` makes of a text, reduced
/// to the top level that this library reads.
pub uninterp spec fn parsed_document(text: Seq<char>) -> DocumentView;

/// Parses JSON text with `serde_json::from_str::<serde_json::Value>` and
/// keeps the top level of what it returns: `Unreadable` where it returns an
/// error, `NotObject` for any value but an object, and for an object its
/// members in the order in which `serde_json::Map` hands them out, each with
/// its key and with its value reduced to null or other. The result depends
/// on the text alone.
#[verifier::external_body]
fn read_document(json: &str) -> (doc: Document)
    ensures
        doc@ == parsed_document(json@),
{
    match serde_json::from_str::<Value>(json) {
        Err(_) => Document::Unreadable,
        Ok(Value::Object(map)) => Document::Object(map.into_iter().map(|(key, value)| Member {
            key,
            value: match value {
                Value::Null => FieldValue::Null,
                Value::String(_) => FieldValue::Other,
                Value::Bool(_) => FieldValue::Other,
                Value::Number(_) => FieldValue::Other,
                Value::Array(_) => FieldValue::Other,
                Value::Object(_) => FieldValue::Other,
            },
        }).collect()),
        Ok(_) => Document::NotObject,
    }
}

impl Document {
    /// Parses JSON text into a document.
    pub fn parse(json: &str) -> (doc: Document)
        ensures
            doc@ == parsed_document(json@),
    {
        read_document(json)
    }

    /// The value of the first member with key `key`, when the document is an
    /// object that has such a member.
    pub fn get(&self, key: &str) -> (found: Option<&FieldValue>)
        ensures
            match found {
                Some(value) => self@.get(key@) == Some(value@),
                None => self@.get(key@) is None,
            },
    {
        match self {
            Document::Object(members) => {
                let mut i: usize = 0;
                while i < members.len()
                    invariant
                        i <= members.len(),
                        self@ == DocumentView::Object(member_views(members@)),
                        forall|j: int| 0 <= j < i ==> (#[trigger] member_views(members@)[j]).key != key@,
                    decreases members.len() - i,
                {
                    if str_eq(members[i].key.as_str(), key) {
                        proof {
                            lemma_value_at_first(member_views(members@), key@, i as int);
                        }
                        return Some(&members[i].value);
                    }
                    i += 1;
                }
                proof {
                    lemma_value_absent(member_views(members@), key@);
                }
                None
            },
            _ => None,
        }
    }

    /// Whether the document is an object in which `key` has a value other
    /// than null.
    pub fn provides(&self, key: &str) -> (present: bool)
        ensures
            present == self@.provides(key@),
    {
        match self.get(key) {
            Some(FieldValue::Null) => false,
            Some(_) => true,
            None => false,
        }
    }
}

} // verus!
