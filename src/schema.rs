//! The declaration rules of a component struct: which field holds the
//! transform, which holds the renderables, and which fields are marked as
//! child components (`#[child]` for one, `#[children]` for a list).
//!
//! A struct is described by plain values: each field's name, type and
//! attributes, with a type given by its path segments and their generic
//! arguments.
use vstd::prelude::*;
use vstd::string::StringExecFns;
use crate::text::text_eq;

verus! {

/// A type as written in a field declaration.
pub enum TypeDesc {
    /// A path such as `Vec<Renderable>`: its segments, in order.
    Path(Vec<Segment>),
    /// Any other form of type (a reference, a tuple, an array, ...).
    Other,
}

/// One segment of a type path: its name and its arguments.
pub struct Segment {
    pub ident: String,
    pub arguments: PathArguments,
}

/// The arguments of a path segment.
pub enum PathArguments {
    /// No arguments.
    Bare,
    /// `<...>`: the generic arguments, in order.
    AngleBracketed(Vec<GenericArgument>),
    /// `(...)`, as in `Fn(A) -> B`.
    Parenthesized,
}

/// One generic argument.
pub enum GenericArgument {
    Type(TypeDesc),
    /// A lifetime, a constant or a binding.
    Other,
}

/// An attribute on a field, as its form gives it.
pub enum AttrDesc {
    /// A bare path, such as `#[child]`: its segments.
    Path(Vec<String>),
    /// An attribute with arguments, such as `#[child(x)]` or `#[doc = "..."]`.
    Other,
}

/// A field of a component struct.
pub struct FieldDecl {
    pub name: String,
    pub ty: TypeDesc,
    pub attrs: Vec<AttrDesc>,
}

/// How a field holds child components.
#[derive(Debug, Clone, Copy, PartialEq, Eq, Structural)]
pub enum Attr {
    /// The field is one child component.
    Child,
    /// The field is a list of child components.
    Children,
}

/// A field marked as holding child components: its position among the
/// struct's fields, and its mark.
#[derive(Debug, Clone, Copy, PartialEq, Eq, Structural)]
pub struct Field {
    pub field: usize,
    pub attr: Attr,
}

/// One of the two fields that every component has.
#[derive(Debug, Clone, Copy, PartialEq, Eq, Structural)]
pub enum FieldRole {
    Transform,
    Renderables,
}

/// A broken declaration rule.
#[derive(Debug, Clone, Copy, PartialEq, Eq, Structural)]
pub enum SchemaError {
    /// The field at this position has more than one attribute.
    ExpectedSingleAttribute(usize),
    /// The field at this position has an attribute other than `#[child]` or `#[children]`.
    UnsupportedAttribute(usize),
    /// The field at this position has the name of the role but the wrong type.
    WrongType(FieldRole, usize),
    /// No field has the name of the role.
    MissingField(FieldRole),
}

/// The mark that an attribute name stands for.
pub open spec fn attr_of_name(s: Seq<char>) -> Option<Attr> {
    if s == "child"@ {
        Some(Attr::Child)
    } else if s == "children"@ {
        Some(Attr::Children)
    } else {
        None
    }
}

/// The text of the error for an attribute name that is no mark.
pub open spec fn invalid_attr_message(s: Seq<char>) -> Seq<char> {
    "Invalid ChildComponentAttr value \""@ + s + "\""@
}

impl Attr {
    /// The mark named `value`: `child` or `children`.
    pub fn from_name(value: &str) -> (r: Result<Attr, String>)
        ensures
            match attr_of_name(value@) {
                Some(a) => r == Ok::<Attr, String>(a),
                None => r is Err && r->Err_0@ == invalid_attr_message(value@),
            },
    {
        if text_eq(value, "child") {
            Ok(Attr::Child)
        } else if text_eq(value, "children") {
            Ok(Attr::Children)
        } else {
            let mut message = String::from_str("Invalid ChildComponentAttr value \"");
            message.append(value);
            message.append("\"");
            Err(message)
        }
    }
}

/// The mark that an attribute gives, if it is `#[child]` or `#[children]`.
pub open spec fn attr_of(a: AttrDesc) -> Option<Attr> {
    match a {
        AttrDesc::Path(segments) => if segments@.len() == 1 {
            attr_of_name(segments@[0]@)
        } else {
            None
        },
        AttrDesc::Other => None,
    }
}

/// What the rules make of the field at position `i`: nothing for a field with
/// no attribute, its mark, or the rule it breaks.
pub open spec fn field_mark(f: FieldDecl, i: usize) -> Result<Option<Attr>, SchemaError> {
    if f.attrs@.len() == 0 {
        Ok(None)
    } else if f.attrs@.len() > 1 {
        Err(SchemaError::ExpectedSingleAttribute(i))
    } else {
        match attr_of(f.attrs@[0]) {
            Some(a) => Ok(Some(a)),
            None => Err(SchemaError::UnsupportedAttribute(i)),
        }
    }
}

/// The marked fields of `fs`, in order, or the first broken rule.
pub open spec fn marked_fields(fs: Seq<FieldDecl>) -> Result<Seq<Field>, SchemaError>
    decreases fs.len(),
{
    if fs.len() == 0 {
        Ok(Seq::empty())
    } else {
        match marked_fields(fs.drop_last()) {
            Err(e) => Err(e),
            Ok(before) => match field_mark(fs.last(), (fs.len() - 1) as usize) {
                Err(e) => Err(e),
                Ok(None) => Ok(before),
                Ok(Some(a)) => Ok(before.push(Field { field: (fs.len() - 1) as usize, attr: a })),
            },
        }
    }
}

fn mark_of(a: &AttrDesc) -> (r: Option<Attr>)
    ensures
        r == attr_of(*a),
{
    match a {
        AttrDesc::Path(segments) => {
            if segments.len() == 1 {
                match Attr::from_name(segments[0].as_str()) {
                    Ok(attr) => Some(attr),
                    Err(_) => None,
                }
            } else {
                None
            }
        },
        AttrDesc::Other => None,
    }
}

/// The fields marked as child components, in order; the first broken rule if
/// a field has more than one attribute or an attribute that is no mark.
pub fn parse_fields(fields: &Vec<FieldDecl>) -> (r: Result<Vec<Field>, SchemaError>)
    ensures
        match marked_fields(fields@) {
            Ok(s) => r is Ok && r->Ok_0@ == s,
            Err(e) => r == Err::<Vec<Field>, SchemaError>(e),
        },
{
    let mut found: Vec<Field> = Vec::new();
    let mut i: usize = 0;
    while i < fields.len()
        invariant
            i <= fields@.len(),
            marked_fields(fields@.take(i as int)) == Ok::<Seq<Field>, SchemaError>(found@),
        decreases fields@.len() - i,
    {
        assert(fields@.take(i + 1).drop_last() =~= fields@.take(i as int));
        let f = &fields[i];
        if f.attrs.len() > 1 {
            proof {
                lemma_marked_fields_stuck(fields@, i as int + 1);
            }
            return Err(SchemaError::ExpectedSingleAttribute(i));
        }
        if f.attrs.len() == 1 {
            match mark_of(&f.attrs[0]) {
                Some(attr) => {
                    found.push(Field { field: i, attr });
                },
                None => {
                    proof {
                        lemma_marked_fields_stuck(fields@, i as int + 1);
                    }
                    return Err(SchemaError::UnsupportedAttribute(i));
                },
            }
        }
        i = i + 1;
    }
    assert(fields@.take(i as int) =~= fields@);
    Ok(found)
}

/// Once a prefix breaks a rule, so does every longer prefix, with the same error.
proof fn lemma_marked_fields_stuck(fs: Seq<FieldDecl>, k: int)
    requires
        0 <= k <= fs.len(),
        marked_fields(fs.take(k)) is Err,
    ensures
        marked_fields(fs) == marked_fields(fs.take(k)),
    decreases fs.len() - k,
{
    if k < fs.len() {
        assert(fs.take(k + 1).drop_last() =~= fs.take(k));
        lemma_marked_fields_stuck(fs, k + 1);
    } else {
        assert(fs.take(k) =~= fs);
    }
}

/// The words of a broken rule.
pub open spec fn schema_message(e: SchemaError) -> Seq<char> {
    match e {
        SchemaError::ExpectedSingleAttribute(_) => "expected a single attribute per field"@,
        SchemaError::UnsupportedAttribute(_) => "expected \"#[child]\" or \"#[children]\""@,
        SchemaError::WrongType(FieldRole::Transform, _) => "the type of the \"transform\" field must be \"Transform\""@,
        SchemaError::WrongType(FieldRole::Renderables, _) => "the type of the \"renderables\" field must be \"Vec<Renderable>\""@,
        SchemaError::MissingField(FieldRole::Transform) => "a component should have a \"transform: Transform\" field"@,
        SchemaError::MissingField(FieldRole::Renderables) => "a component should have a \"renderables: Vec<Renderable>\" field"@,
    }
}

impl SchemaError {
    /// The words of the broken rule.
    pub fn message(&self) -> (r: &'static str)
        ensures
            r@ == schema_message(*self),
    {
        match self {
            SchemaError::ExpectedSingleAttribute(_) => "expected a single attribute per field",
            SchemaError::UnsupportedAttribute(_) => "expected \"#[child]\" or \"#[children]\"",
            SchemaError::WrongType(FieldRole::Transform, _) => "the type of the \"transform\" field must be \"Transform\"",
            SchemaError::WrongType(FieldRole::Renderables, _) => "the type of the \"renderables\" field must be \"Vec<Renderable>\"",
            SchemaError::MissingField(FieldRole::Transform) => "a component should have a \"transform: Transform\" field",
            SchemaError::MissingField(FieldRole::Renderables) => "a component should have a \"renderables: Vec<Renderable>\" field",
        }
    }
}

} // verus!
