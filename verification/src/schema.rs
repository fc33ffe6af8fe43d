//! Field schemas: which fields of a record type a document must carry.
//!
//! A record type is described by its declaration: the ordered list of its
//! fields, each with its name, its attributes and the shape of its type. The
//! schema of the type is the ordered list of the names of its required
//! fields. It is derived from the declaration alone.

use vstd::prelude::*;
use crate::text::{str_eq, views};

verus! {

/// The form of one item in the list of an attribute.
#[derive(Clone, Copy, PartialEq, Eq, Structural, Debug)]
pub enum ItemForm {
    /// A bare word: `default`.
    Word,
    /// A name with a value: `default = "make"`.
    Value,
    /// A name with a list of its own: `bound(serialize = "T: Copy")`.
    List,
}

/// One item in the list of an attribute: in `#[serde(rename = "x", default)]`
/// the items are `rename = "x"` and `default`.
#[derive(Debug)]
pub struct ItemDecl {
    /// The name that the item begins with, when it is a single plain
    /// identifier; `None` for any longer or qualified path.
    pub name: Option<String>,
    /// The form of the item.
    pub form: ItemForm,
}

/// One attribute on a field, as far as schema derivation reads it.
#[derive(Debug)]
pub struct AttrDecl {
    /// The attribute's path when it is a single plain identifier, as in
    /// `#[serde(...)]`; `None` for any longer or qualified path.
    pub path: Option<String>,
    /// The items of the attribute's list, in order, when the attribute has
    /// the form `#[path(item, item, ...)]`; empty for the forms `#[path]`
    /// and `#[path = value]`.
    pub items: Vec<ItemDecl>,
}

/// The shape of a field's declared type.
#[derive(Debug)]
pub enum TypeDecl {
    /// A path type, given by the identifiers of its segments, without their
    /// generic arguments: `Option<String>` is `["Option"]`, and
    /// `std::option::Option<String>` is `["std", "option", "Option"]`.
    Path(Vec<String>),
    /// Any other type: a reference, a tuple, an array and so on.
    Other,
}

/// One field of a record declaration.
#[derive(Debug)]
pub struct FieldDecl {
    /// The field's name; `None` for a field of a tuple struct.
    pub name: Option<String>,
    /// The field's attributes, in source order.
    pub attrs: Vec<AttrDecl>,
    /// The shape of the field's type.
    pub ty: TypeDecl,
}

/// The fields of a struct declaration.
#[derive(Debug)]
pub enum FieldsDecl {
    /// `struct S { a: A, b: B }`
    Named(Vec<FieldDecl>),
    /// `struct S(A, B);`
    Unnamed,
    /// `struct S;`
    Unit,
}

/// The body of a type declaration.
#[derive(Debug)]
pub enum DataDecl {
    Struct(FieldsDecl),
    Enum,
    Union,
}

/// A record type's declaration: its name and its body.
#[derive(Debug)]
pub struct RecordDecl {
    pub name: String,
    pub data: DataDecl,
}

/// The field schema of one record type.
#[derive(Debug)]
pub struct FieldSchema {
    /// The name of the record type.
    pub record_name: String,
    /// The names of the required fields, in declaration order.
    pub required: Vec<String>,
}

/// The item has the name `name` and the form `form`.
pub open spec fn is_item(item: ItemDecl, name: Seq<char>, form: ItemForm) -> bool {
    &&& item.name matches Some(text)
    &&& text@ == name
    &&& item.form == form
}

/// The attribute is `#[tool(...)]`, and one of the items of its list has
/// the name `name` and the form `form`.
pub open spec fn has_item(attr: AttrDecl, tool: Seq<char>, name: Seq<char>, form: ItemForm) -> bool {
    &&& attr.path matches Some(path)
    &&& path@ == tool
    &&& exists|i: int| 0 <= i < attr.items@.len() && is_item(#[trigger] attr.items@[i], name, form)
}

/// The attribute holds the explicit marker `optional`:
/// `#[field_validator(optional)]`.
pub open spec fn is_optional_marker(attr: AttrDecl) -> bool {
    has_item(attr, "field_validator"@, "optional"@, ItemForm::Word)
}

/// The attribute holds a marker that gives the field a default or lets it
/// be left out: `#[serde(default)]`, `#[serde(default = ..)]` or
/// `#[serde(skip_serializing_if = ..)]`. Other items may stand beside the
/// marker; a marker's name inside the value of another item is no marker.
pub open spec fn is_defaulted_marker(attr: AttrDecl) -> bool {
    ||| has_item(attr, "serde"@, "default"@, ItemForm::Word)
    ||| has_item(attr, "serde"@, "default"@, ItemForm::Value)
    ||| has_item(attr, "serde"@, "skip_serializing_if"@, ItemForm::Value)
}

/// The attribute marks its field as optional or defaulted.
pub open spec fn is_override_marker(attr: AttrDecl) -> bool {
    is_optional_marker(attr) || is_defaulted_marker(attr)
}

/// Some attribute in `attrs` marks the field as optional or defaulted.
pub open spec fn has_override_marker(attrs: Seq<AttrDecl>) -> bool {
    exists|i: int| 0 <= i < attrs.len() && is_override_marker(#[trigger] attrs[i])
}

/// The path names the standard `Option`: `Option`, `option::Option`,
/// `std::option::Option` or `core::option::Option`.
pub open spec fn is_option_path(path: Seq<Seq<char>>) -> bool {
    ||| path == seq!["Option"@]
    ||| path == seq!["option"@, "Option"@]
    ||| path == seq!["std"@, "option"@, "Option"@]
    ||| path == seq!["core"@, "option"@, "Option"@]
}

/// Every spelling of `Option` ends in `Option`, has `option` before it
/// where it is longer, and begins with `std` or `core` where it has three
/// segments.
pub proof fn lemma_option_path_shape(path: Seq<Seq<char>>)
    requires
        is_option_path(path),
    ensures
        1 <= path.len() <= 3,
        path[path.len() - 1] == "Option"@,
        path.len() >= 2 ==> path[path.len() - 2] == "option"@,
        path.len() == 3 ==> path[0] == "std"@ || path[0] == "core"@,
{
    let one = seq!["Option"@];
    let two = seq!["option"@, "Option"@];
    let std3 = seq!["std"@, "option"@, "Option"@];
    let core3 = seq!["core"@, "option"@, "Option"@];
    assert(one.len() == 1 && one[0] == "Option"@);
    assert(two.len() == 2 && two[0] == "option"@ && two[1] == "Option"@);
    assert(std3.len() == 3 && std3[0] == "std"@ && std3[1] == "option"@ && std3[2] == "Option"@);
    assert(core3.len() == 3 && core3[0] == "core"@ && core3[1] == "option"@ && core3[2]
        == "Option"@);
}

/// The declared type permits absence: it is `Option`, however its path is
/// spelled.
pub open spec fn permits_absence(ty: TypeDecl) -> bool {
    &&& ty matches TypeDecl::Path(segments)
    &&& is_option_path(views(segments@))
}

/// A field is required unless it has no name, its type permits absence, or
/// it carries an override marker.
pub open spec fn is_required(field: FieldDecl) -> bool {
    &&& field.name is Some
    &&& !has_override_marker(field.attrs@)
    &&& !permits_absence(field.ty)
}

/// The names of the required fields among `fields`, in declaration order.
pub open spec fn required_among(fields: Seq<FieldDecl>) -> Seq<Seq<char>>
    decreases fields.len(),
{
    if fields.len() == 0 {
        Seq::empty()
    } else {
        let earlier = required_among(fields.drop_last());
        if is_required(fields.last()) {
            earlier.push(fields.last().name->0@)
        } else {
            earlier
        }
    }
}

/// The schema of a declaration: the required fields of a struct with named
/// fields, and nothing for any other declaration.
pub open spec fn required_names(data: DataDecl) -> Seq<Seq<char>> {
    match data {
        DataDecl::Struct(FieldsDecl::Named(fields)) => required_among(fields@),
        _ => Seq::empty(),
    }
}

/// Whether a type is `Option<T>`, written as `Option`, `option::Option`,
/// `std::option::Option` or `core::option::Option`.
pub fn is_option_type(ty: &TypeDecl) -> (option: bool)
    ensures
        option == permits_absence(*ty),
{
    match ty {
        TypeDecl::Path(segments) => {
            let ghost path = views(segments@);
            let n = segments.len();
            proof {
                if is_option_path(path) {
                    lemma_option_path_shape(path);
                }
            }
            if n == 0 || n > 3 {
                return false;
            }
            if !str_eq(segments[n - 1].as_str(), "Option") {
                assert(path[n - 1] != "Option"@);
                return false;
            }
            if n == 1 {
                assert(path =~= seq!["Option"@]);
                return true;
            }
            if !str_eq(segments[n - 2].as_str(), "option") {
                assert(path[n - 2] != "option"@);
                return false;
            }
            if n == 2 {
                assert(path =~= seq!["option"@, "Option"@]);
                return true;
            }
            let std_root = str_eq(segments[0].as_str(), "std");
            let core_root = str_eq(segments[0].as_str(), "core");
            if std_root {
                assert(path =~= seq!["std"@, "option"@, "Option"@]);
            } else if core_root {
                assert(path =~= seq!["core"@, "option"@, "Option"@]);
            } else {
                assert(path[0] != "std"@ && path[0] != "core"@);
            }
            std_root || core_root
        },
        TypeDecl::Other => false,
    }
}

/// Whether the attribute is `#[tool(...)]` with an item of the name `name`
/// and the form `form` in its list.
fn attr_has(attr: &AttrDecl, tool: &str, name: &str, form: ItemForm) -> (hit: bool)
    ensures
        hit == has_item(*attr, tool@, name@, form),
{
    match &attr.path {
        Some(path) => {
            if !str_eq(path.as_str(), tool) {
                return false;
            }
        },
        None => {
            return false;
        },
    }
    let mut i: usize = 0;
    while i < attr.items.len()
        invariant
            i <= attr.items.len(),
            attr.path matches Some(path) && path@ == tool@,
            forall|k: int| 0 <= k < i ==> !is_item(#[trigger] attr.items@[k], name@, form),
        decreases attr.items.len() - i,
    {
        let item = &attr.items[i];
        let named = match &item.name {
            Some(text) => str_eq(text.as_str(), name),
            None => false,
        };
        if named && item.form == form {
            assert(is_item(attr.items@[i as int], name@, form));
            return true;
        }
        i += 1;
    }
    false
}

/// Whether some attribute marks the field as optional or defaulted.
pub fn has_override_attr(attrs: &Vec<AttrDecl>) -> (marked: bool)
    ensures
        marked == has_override_marker(attrs@),
{
    let mut i: usize = 0;
    while i < attrs.len()
        invariant
            i <= attrs.len(),
            forall|k: int| 0 <= k < i ==> !is_override_marker(#[trigger] attrs@[k]),
        decreases attrs.len() - i,
    {
        let attr = &attrs[i];
        if attr_has(attr, "field_validator", "optional", ItemForm::Word) || attr_has(
            attr,
            "serde",
            "default",
            ItemForm::Word,
        ) || attr_has(attr, "serde", "default", ItemForm::Value) || attr_has(
            attr,
            "serde",
            "skip_serializing_if",
            ItemForm::Value,
        ) {
            return true;
        }
        i += 1;
    }
    false
}

/// The names of the fields that a document of this record type must carry:
/// every named field of a struct that is neither of type `Option` nor marked
/// optional or defaulted, in declaration order.
pub fn extract_required_fields(data: &DataDecl) -> (required: Vec<String>)
    ensures
        views(required@) == required_names(*data),
{
    let mut required: Vec<String> = Vec::new();
    match data {
        DataDecl::Struct(FieldsDecl::Named(fields)) => {
            let mut i: usize = 0;
            while i < fields.len()
                invariant
                    i <= fields.len(),
                    views(required@) == required_among(fields@.take(i as int)),
                decreases fields.len() - i,
            {
                let field = &fields[i];
                assert(fields@.take(i + 1).drop_last() =~= fields@.take(i as int));
                match &field.name {
                    Some(name) => {
                        if !has_override_attr(&field.attrs) && !is_option_type(&field.ty) {
                            required.push(name.clone());
                        }
                    },
                    None => {},
                }
                i += 1;
            }
            assert(fields@.take(i as int) =~= fields@);
        },
        _ => {},
    }
    required
}

/// The field schema of a record type, derived from its declaration.
pub fn derive_validate_fields(input: &RecordDecl) -> (schema: FieldSchema)
    ensures
        schema.record_name@ == input.name@,
        views(schema.required@) == required_names(input.data),
{
    FieldSchema { record_name: input.name.clone(), required: extract_required_fields(&input.data) }
}

/// The schema follows the declaration field by field: the schema of two
/// runs of fields, one after the other, is the schema of the first followed
/// by the schema of the second. So whether a field is required depends on
/// that field alone, and the required names keep their declaration order.
pub proof fn lemma_required_among_concat(first: Seq<FieldDecl>, second: Seq<FieldDecl>)
    ensures
        required_among(first + second) == required_among(first) + required_among(second),
    decreases second.len(),
{
    if second.len() > 0 {
        assert((first + second).drop_last() =~= first + second.drop_last());
        lemma_required_among_concat(first, second.drop_last());
    }
}

/// A name is in the schema exactly when a required field of the
/// declaration has it.
pub proof fn lemma_required_among_exactly(fields: Seq<FieldDecl>, name: Seq<char>)
    ensures
        required_among(fields).contains(name) <==> exists|i: int|
            0 <= i < fields.len() && is_required(#[trigger] fields[i]) && fields[i].name->0@
                == name,
    decreases fields.len(),
{
    if fields.len() > 0 {
        let earlier = fields.drop_last();
        let found = required_among(earlier);
        lemma_required_among_exactly(earlier, name);
        if required_among(fields).contains(name) {
            let at = choose|k: int|
                0 <= k < required_among(fields).len() && required_among(fields)[k] == name;
            if at < found.len() {
                let i = choose|i: int|
                    0 <= i < earlier.len() && is_required(#[trigger] earlier[i])
                        && earlier[i].name->0@ == name;
                assert(fields[i] == earlier[i]);
            } else {
                assert(fields[fields.len() - 1] == fields.last());
            }
        }
        if exists|i: int|
            0 <= i < fields.len() && is_required(#[trigger] fields[i]) && fields[i].name->0@
                == name {
            let i = choose|i: int|
                0 <= i < fields.len() && is_required(#[trigger] fields[i]) && fields[i].name->0@
                    == name;
            if i < fields.len() - 1 {
                assert(earlier[i] == fields[i]);
                let at = choose|k: int| 0 <= k < found.len() && found[k] == name;
                assert(required_among(fields)[at] == name);
            } else {
                assert(required_among(fields)[found.len() as int] == name);
            }
        }
    }
}

/// The content of a string that may be absent.
pub open spec fn text_of(text: Option<String>) -> Option<Seq<char>> {
    match text {
        Some(text) => Some(text@),
        None => None,
    }
}

/// Two items read the same: same name, same form.
pub open spec fn same_item(a: ItemDecl, b: ItemDecl) -> bool {
    &&& text_of(a.name) == text_of(b.name)
    &&& a.form == b.form
}

/// Two attributes read the same: same path, same items in the same order.
pub open spec fn same_attr(a: AttrDecl, b: AttrDecl) -> bool {
    &&& text_of(a.path) == text_of(b.path)
    &&& a.items@.len() == b.items@.len()
    &&& forall|i: int| 0 <= i < a.items@.len() ==> same_item(#[trigger] a.items@[i], b.items@[i])
}

/// Attributes that read the same hold the same items.
pub proof fn lemma_same_attr_same_items(
    a: AttrDecl,
    b: AttrDecl,
    tool: Seq<char>,
    name: Seq<char>,
    form: ItemForm,
)
    requires
        same_attr(a, b),
        has_item(a, tool, name, form),
    ensures
        has_item(b, tool, name, form),
{
    let i = choose|i: int| 0 <= i < a.items@.len() && is_item(#[trigger] a.items@[i], name, form);
    assert(same_item(a.items@[i], b.items@[i]));
    assert(is_item(b.items@[i], name, form));
}

/// Attributes that read the same are markers together or not at all.
pub proof fn lemma_same_attr_same_marker(a: AttrDecl, b: AttrDecl)
    requires
        same_attr(a, b),
        is_override_marker(a),
    ensures
        is_override_marker(b),
{
    if has_item(a, "field_validator"@, "optional"@, ItemForm::Word) {
        lemma_same_attr_same_items(a, b, "field_validator"@, "optional"@, ItemForm::Word);
    } else if has_item(a, "serde"@, "default"@, ItemForm::Word) {
        lemma_same_attr_same_items(a, b, "serde"@, "default"@, ItemForm::Word);
    } else if has_item(a, "serde"@, "default"@, ItemForm::Value) {
        lemma_same_attr_same_items(a, b, "serde"@, "default"@, ItemForm::Value);
    } else {
        lemma_same_attr_same_items(a, b, "serde"@, "skip_serializing_if"@, ItemForm::Value);
    }
}

/// Two types read the same: both are paths with the same segments, or
/// neither is a path.
pub open spec fn same_type(a: TypeDecl, b: TypeDecl) -> bool {
    match (a, b) {
        (TypeDecl::Path(x), TypeDecl::Path(y)) => views(x@) == views(y@),
        (TypeDecl::Other, TypeDecl::Other) => true,
        _ => false,
    }
}

/// Two fields read the same: same name, same attributes in the same order,
/// same type.
pub open spec fn same_field(a: FieldDecl, b: FieldDecl) -> bool {
    &&& text_of(a.name) == text_of(b.name)
    &&& a.attrs@.len() == b.attrs@.len()
    &&& forall|i: int| 0 <= i < a.attrs@.len() ==> same_attr(#[trigger] a.attrs@[i], b.attrs@[i])
    &&& same_type(a.ty, b.ty)
}

/// Two runs of fields read the same, field by field.
pub open spec fn same_fields(a: Seq<FieldDecl>, b: Seq<FieldDecl>) -> bool {
    &&& a.len() == b.len()
    &&& forall|i: int| 0 <= i < a.len() ==> same_field(#[trigger] a[i], b[i])
}

/// Fields that read the same are required together or not at all.
pub proof fn lemma_same_field_same_status(a: FieldDecl, b: FieldDecl)
    requires
        same_field(a, b),
    ensures
        is_required(a) == is_required(b),
{
    if has_override_marker(a.attrs@) {
        let i = choose|i: int| 0 <= i < a.attrs@.len() && is_override_marker(#[trigger] a.attrs@[i]);
        assert(same_attr(a.attrs@[i], b.attrs@[i]));
        lemma_same_attr_same_marker(a.attrs@[i], b.attrs@[i]);
    }
    if has_override_marker(b.attrs@) {
        let i = choose|i: int| 0 <= i < b.attrs@.len() && is_override_marker(#[trigger] b.attrs@[i]);
        assert(same_attr(a.attrs@[i], b.attrs@[i]));
        assert(same_attr(b.attrs@[i], a.attrs@[i])) by {
            assert forall|k: int| 0 <= k < b.attrs@[i].items@.len() implies same_item(
                #[trigger] b.attrs@[i].items@[k],
                a.attrs@[i].items@[k],
            ) by {
                assert(same_item(a.attrs@[i].items@[k], b.attrs@[i].items@[k]));
            }
        }
        lemma_same_attr_same_marker(b.attrs@[i], a.attrs@[i]);
    }
}

/// The schema depends on nothing but what the declaration says: the names,
/// attributes and types of its fields, in their order. Declarations that
/// read the same have the same schema.
pub proof fn lemma_schema_of_same_fields(a: Seq<FieldDecl>, b: Seq<FieldDecl>)
    requires
        same_fields(a, b),
    ensures
        required_among(a) == required_among(b),
    decreases a.len(),
{
    if a.len() > 0 {
        assert forall|i: int| 0 <= i < a.drop_last().len() implies same_field(
            #[trigger] a.drop_last()[i],
            b.drop_last()[i],
        ) by {
            assert(same_field(a[i], b[i]));
        }
        lemma_schema_of_same_fields(a.drop_last(), b.drop_last());
        lemma_same_field_same_status(a.last(), b.last());
    }
}

/// The schemas of the record types that were registered, one for each.
#[derive(Debug)]
pub struct SchemaRegistry {
    schemas: Vec<FieldSchema>,
}

impl SchemaRegistry {
    /// No record type has two schemas.
    #[verifier::type_invariant]
    pub closed spec fn distinct(&self) -> bool {
        forall|i: int, j: int|
            0 <= i < j < self.schemas@.len() ==> (#[trigger] self.schemas@[i]).record_name@ != (
            #[trigger] self.schemas@[j]).record_name@
    }

    /// `at` is the place of the schema of the record type `name`.
    pub closed spec fn holds_at(&self, name: Seq<char>, at: int) -> bool {
        0 <= at < self.schemas@.len() && self.schemas@[at].record_name@ == name
    }

    /// A schema is registered for the record type `name`.
    pub closed spec fn contains(&self, name: Seq<char>) -> bool {
        exists|at: int| self.holds_at(name, at)
    }

    /// The schema that is registered for the record type `name`.
    pub closed spec fn schema_of(&self, name: Seq<char>) -> Seq<Seq<char>> {
        views(self.schemas@[choose|at: int| self.holds_at(name, at)].required@)
    }

    /// The registry as a map from the names of the registered record types
    /// to their schemas.
    pub open spec fn view(&self) -> Map<Seq<char>, Seq<Seq<char>>> {
        Map::new(|name: Seq<char>| self.contains(name), |name: Seq<char>| self.schema_of(name))
    }

    /// A registry without schemas.
    pub fn new() -> (registry: SchemaRegistry)
        ensures
            registry@ == Map::<Seq<char>, Seq<Seq<char>>>::empty(),
    {
        let registry = SchemaRegistry { schemas: Vec::new() };
        assert(forall|name: Seq<char>| !registry.contains(name));
        assert(registry@ =~= Map::<Seq<char>, Seq<Seq<char>>>::empty());
        registry
    }

    /// The place of the schema of the record type `name`, if it has one.
    fn place_of(&self, name: &str) -> (place: Option<usize>)
        ensures
            match place {
                Some(at) => self.holds_at(name@, at as int),
                None => !self.contains(name@),
            },
    {
        let mut i: usize = 0;
        while i < self.schemas.len()
            invariant
                i <= self.schemas@.len(),
                forall|k: int| 0 <= k < i ==> !self.holds_at(name@, k),
            decreases self.schemas@.len() - i,
        {
            if str_eq(self.schemas[i].record_name.as_str(), name) {
                return Some(i);
            }
            i += 1;
        }
        None
    }

    /// The schema of the record type `name`, if one is registered.
    pub fn lookup(&self, name: &str) -> (found: Option<&FieldSchema>)
        ensures
            match found {
                Some(schema) => {
                    &&& self@.dom().contains(name@)
                    &&& self@[name@] == views(schema.required@)
                    &&& schema.record_name@ == name@
                },
                None => !self@.dom().contains(name@),
            },
    {
        proof {
            use_type_invariant(self);
        }
        match self.place_of(name) {
            Some(at) => Some(&self.schemas[at]),
            None => None,
        }
    }

    /// Registers the schema of a record type, derived from its declaration,
    /// and says whether it was added. A type that has a schema keeps it:
    /// its declaration is not read again, and the answer is `false`.
    pub fn register(self, input: &RecordDecl) -> (grown: (SchemaRegistry, bool))
        ensures
            grown.1 == !self@.dom().contains(input.name@),
            grown.0@ == if grown.1 {
                self@.insert(input.name@, required_names(input.data))
            } else {
                self@
            },
    {
        proof {
            use_type_invariant(&self);
        }
        match self.place_of(input.name.as_str()) {
            Some(_) => (self, false),
            None => {
                let ghost before = self;
                let mut schemas = self.schemas;
                schemas.push(derive_validate_fields(input));
                assert forall|i: int, j: int| 0 <= i < j < schemas@.len() implies (
                #[trigger] schemas@[i]).record_name@ != (#[trigger] schemas@[j]).record_name@ by {
                    if j >= before.schemas@.len() {
                        assert(!before.holds_at(input.name@, i));
                    }
                }
                let after = SchemaRegistry { schemas };
                proof {
                    assert(after.holds_at(input.name@, before.schemas@.len() as int));
                    assert forall|name: Seq<char>| #[trigger]
                        after.contains(name) <==> before.contains(name) || name
                            == input.name@ by {
                        if after.contains(name) {
                            let at = choose|at: int| after.holds_at(name, at);
                            if at < before.schemas@.len() {
                                assert(before.holds_at(name, at));
                            }
                        }
                        if before.contains(name) {
                            let at = choose|at: int| before.holds_at(name, at);
                            assert(after.holds_at(name, at));
                        }
                    }
                    assert forall|name: Seq<char>| before.contains(name) implies after.schema_of(
                        name,
                    ) == before.schema_of(name) by {
                        let b = choose|at: int| before.holds_at(name, at);
                        assert(after.holds_at(name, b));
                    }
                    assert(after@ =~= before@.insert(input.name@, required_names(input.data)));
                }
                (after, true)
            },
        }
    }
}

} // verus!
