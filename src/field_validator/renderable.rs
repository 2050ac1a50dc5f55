//! A component has a field `renderables` of type `Vec<Renderable>`.
use vstd::prelude::*;
use crate::field_validator::{find_field, first_named};
use crate::schema::{FieldDecl, FieldRole, GenericArgument, PathArguments, SchemaError, TypeDesc};
use crate::text::text_eq;

verus! {

/// The type is a path whose first segment is `Renderable`.
pub open spec fn is_renderable_type(t: TypeDesc) -> bool {
    match t {
        TypeDesc::Path(segments) => segments@.len() > 0 && segments@[0].ident@ == "Renderable"@,
        TypeDesc::Other => false,
    }
}

/// The type is a path whose first segment is `Vec`, with a first generic
/// argument that is `Renderable`.
pub open spec fn is_renderables_type(t: TypeDesc) -> bool {
    match t {
        TypeDesc::Path(segments) => segments@.len() > 0 && segments@[0].ident@ == "Vec"@
            && match segments@[0].arguments {
            PathArguments::AngleBracketed(args) => args@.len() > 0 && match args@[0] {
                GenericArgument::Type(inner) => is_renderable_type(inner),
                GenericArgument::Other => false,
            },
            _ => false,
        },
        TypeDesc::Other => false,
    }
}

fn names_renderable(t: &TypeDesc) -> (r: bool)
    ensures
        r == is_renderable_type(*t),
{
    match t {
        TypeDesc::Path(segments) => segments.len() > 0 && text_eq(
            segments[0].ident.as_str(),
            "Renderable",
        ),
        TypeDesc::Other => false,
    }
}

fn names_renderables(t: &TypeDesc) -> (r: bool)
    ensures
        r == is_renderables_type(*t),
{
    match t {
        TypeDesc::Path(segments) => {
            if segments.len() == 0 || !text_eq(segments[0].ident.as_str(), "Vec") {
                return false;
            }
            match &segments[0].arguments {
                PathArguments::AngleBracketed(args) => {
                    if args.len() == 0 {
                        return false;
                    }
                    match &args[0] {
                        GenericArgument::Type(inner) => names_renderable(inner),
                        GenericArgument::Other => false,
                    }
                },
                _ => false,
            }
        },
        TypeDesc::Other => false,
    }
}

/// What the check on the `renderables` field gives for the fields `fs`.
pub open spec fn checked(fs: Seq<FieldDecl>) -> Result<(), SchemaError> {
    match first_named(fs, "renderables"@) {
        None => Err(SchemaError::MissingField(FieldRole::Renderables)),
        Some(i) => if is_renderables_type(fs[i].ty) {
            Ok(())
        } else {
            Err(SchemaError::WrongType(FieldRole::Renderables, i as usize))
        },
    }
}

/// Checks the first field named `renderables`: it must exist and have the type
/// `Vec<Renderable>`.
pub fn validate(fields: &Vec<FieldDecl>) -> (r: Result<(), SchemaError>)
    ensures
        r == checked(fields@),
{
    match find_field(fields, "renderables") {
        None => Err(SchemaError::MissingField(FieldRole::Renderables)),
        Some(i) => {
            if names_renderables(&fields[i].ty) {
                Ok(())
            } else {
                Err(SchemaError::WrongType(FieldRole::Renderables, i))
            }
        },
    }
}

} // verus!
