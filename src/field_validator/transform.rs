//! A component has a field `transform` of type `Transform`.
use vstd::prelude::*;
use crate::field_validator::{find_field, first_named};
use crate::schema::{FieldDecl, FieldRole, SchemaError, TypeDesc};
use crate::text::text_eq;

verus! {

/// The type is a path whose first segment is `Transform`.
pub open spec fn is_transform_type(t: TypeDesc) -> bool {
    match t {
        TypeDesc::Path(segments) => segments@.len() > 0 && segments@[0].ident@ == "Transform"@,
        TypeDesc::Other => false,
    }
}

/// What the check on the `transform` field gives for the fields `fs`.
pub open spec fn checked(fs: Seq<FieldDecl>) -> Result<(), SchemaError> {
    match first_named(fs, "transform"@) {
        None => Err(SchemaError::MissingField(FieldRole::Transform)),
        Some(i) => if is_transform_type(fs[i].ty) {
            Ok(())
        } else {
            Err(SchemaError::WrongType(FieldRole::Transform, i as usize))
        },
    }
}

/// Checks the first field named `transform`: it must exist and have the type
/// `Transform`.
pub fn validate(fields: &Vec<FieldDecl>) -> (r: Result<(), SchemaError>)
    ensures
        r == checked(fields@),
{
    match find_field(fields, "transform") {
        None => Err(SchemaError::MissingField(FieldRole::Transform)),
        Some(i) => {
            let ok = match &fields[i].ty {
                TypeDesc::Path(segments) => segments.len() > 0 && text_eq(
                    segments[0].ident.as_str(),
                    "Transform",
                ),
                TypeDesc::Other => false,
            };
            if ok {
                Ok(())
            } else {
                Err(SchemaError::WrongType(FieldRole::Transform, i))
            }
        },
    }
}

} // verus!
