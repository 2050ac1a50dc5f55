//! The checks on the two fields that every component struct has.
use vstd::prelude::*;
use crate::schema::{marked_fields, parse_fields, Field, FieldDecl, SchemaError};
use crate::text::text_eq;

pub mod renderable;
pub mod transform;

verus! {

/// `i` is the position of the first field of `fs` named `name`.
pub open spec fn is_first_named(fs: Seq<FieldDecl>, name: Seq<char>, i: int) -> bool {
    &&& 0 <= i < fs.len()
    &&& fs[i].name@ == name
    &&& forall|j: int| 0 <= j < i ==> fs[j].name@ != name
}

/// The position of the first field of `fs` named `name`, if there is one.
pub open spec fn first_named(fs: Seq<FieldDecl>, name: Seq<char>) -> Option<int> {
    if exists|i: int| is_first_named(fs, name, i) {
        Some(choose|i: int| is_first_named(fs, name, i))
    } else {
        None
    }
}

/// The position of the first field named `name`, if there is one.
pub fn find_field(fields: &Vec<FieldDecl>, name: &str) -> (r: Option<usize>)
    ensures
        match r {
            Some(i) => first_named(fields@, name@) == Some(i as int),
            None => first_named(fields@, name@) is None,
        },
{
    let mut i: usize = 0;
    while i < fields.len()
        invariant
            i <= fields@.len(),
            forall|j: int| 0 <= j < i ==> fields@[j].name@ != name@,
        decreases fields@.len() - i,
    {
        if text_eq(fields[i].name.as_str(), name) {
            assert(is_first_named(fields@, name@, i as int));
            let ghost k = choose|k: int| is_first_named(fields@, name@, k);
            assert(k == i) by {
                if k < i {
                } else if k > i {
                    assert(fields@[i as int].name@ == name@);
                }
            }
            return Some(i);
        }
        i = i + 1;
    }
    assert forall|k: int| !is_first_named(fields@, name@, k) by {
        if 0 <= k < fields@.len() {
        }
    }
    None
}

/// Checks a whole component struct: first its `transform` field, then its
/// `renderables` field, then the marks on its fields. Returns the fields that
/// hold child components, or the first broken rule.
pub fn check_component(fields: &Vec<FieldDecl>) -> (r: Result<Vec<Field>, SchemaError>)
    ensures
        match (transform::checked(fields@), renderable::checked(fields@), marked_fields(fields@)) {
            (Err(e), _, _) => r == Err::<Vec<Field>, SchemaError>(e),
            (Ok(_), Err(e), _) => r == Err::<Vec<Field>, SchemaError>(e),
            (Ok(_), Ok(_), Err(e)) => r == Err::<Vec<Field>, SchemaError>(e),
            (Ok(_), Ok(_), Ok(s)) => r is Ok && r->Ok_0@ == s,
        },
{
    match transform::validate(fields) {
        Err(e) => return Err(e),
        Ok(()) => {},
    }
    match renderable::validate(fields) {
        Err(e) => return Err(e),
        Ok(()) => {},
    }
    parse_fields(fields)
}

} // verus!
