//! Builder synthesis for record types.
//!
//! Given the definition of a record (a struct with named fields), this
//! library works out a companion builder: one storage slot per field, a
//! zero-state factory, one setter per field and a fallible assembly
//! operation that insists on every field that is not optional.
//!
//! The work is done in three steps, each in a module of its own: the
//! fields are extracted from the definition ([`record`]), each declared
//! type is classified as optional or required ([`classify`]), and the
//! builder is laid out ([`descriptor`]) and written as source text
//! ([`emit`]). [`derive`] runs them in a row. What the generated builder
//! does when it runs is modelled in [`runtime`], and [`laws`] states what
//! holds of it for every record.

use vstd::prelude::*;

pub mod type_expr;
pub mod classify;
pub mod record;
pub mod descriptor;
pub mod emit;
pub mod runtime;
pub mod laws;

verus! {

/// The code that is generated for a definition, or the reason why none is.
pub open spec fn derive_spec(def: record::RecordDefinitionView) -> Result<
    emit::CodeBundleView,
    record::ShapeError,
> {
    match descriptor::describe_spec(def) {
        Ok(d) => Ok(emit::bundle_of(d)),
        Err(e) => Err(e),
    }
}

/// Generates the code of a builder for a definition.
///
/// This is the whole pipeline: the fields are extracted, each is
/// classified, the builder is laid out and its four declarations are
/// written. It fails, with nothing generated, exactly where the
/// definition is not a struct with at least one named field.
pub fn derive(input: &record::RecordDefinition) -> (r: Result<
    emit::CodeBundle,
    record::ShapeError,
>)
    ensures
        match r {
            Ok(bundle) => derive_spec(input@) == Ok::<emit::CodeBundleView, record::ShapeError>(
                bundle@,
            ),
            Err(e) => derive_spec(input@) == Err::<emit::CodeBundleView, record::ShapeError>(e),
        },
{
    match descriptor::describe(input) {
        Ok(d) => Ok(emit::emit(&d)),
        Err(e) => Err(e),
    }
}

} // verus!
