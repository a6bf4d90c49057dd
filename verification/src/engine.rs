//! What the execution engine is handed: the shapes of the configuration as
//! the engine's type references.

use crate::config::{FieldType, FieldTypeView};
use async_graphql::dynamic::TypeRef;
use vstd::prelude::*;

verus! {

/// The engine's type reference.
#[verifier::external_type_specification]
#[verifier::external_body]
pub struct ExTypeRef(async_graphql::dynamic::TypeRef);

/// The shape that an engine type reference stands for.
pub uninterp spec fn type_ref_shape(reference: TypeRef) -> FieldTypeView;

/// Calls `TypeRef::named`. The contract claims a reference to the type of
/// that name, without wrappers.
#[verifier::external_body]
fn named_reference(name: &str) -> (reference: TypeRef)
    ensures
        type_ref_shape(reference) == FieldTypeView::Named(name@),
{
    TypeRef::named(name)
}

/// Makes the variant `TypeRef::List`. The contract claims a list of what the
/// item reference stands for.
#[verifier::external_body]
fn list_reference(item: TypeRef) -> (reference: TypeRef)
    ensures
        type_ref_shape(reference) == FieldTypeView::List(Box::new(type_ref_shape(item))),
{
    TypeRef::List(Box::new(item))
}

/// Makes the variant `TypeRef::NonNull`. The contract claims the non-null
/// form of what the inner reference stands for.
#[verifier::external_body]
fn non_null_reference(inner: TypeRef) -> (reference: TypeRef)
    ensures
        type_ref_shape(reference) == FieldTypeView::NonNull(Box::new(type_ref_shape(inner))),
{
    TypeRef::NonNull(Box::new(inner))
}

/// The engine's reference for a shape, wrapper by wrapper.
pub fn convert_field_type(field_type: &FieldType) -> (reference: TypeRef)
    ensures
        type_ref_shape(reference) == field_type@,
    decreases field_type,
{
    match field_type {
        FieldType::Named(name) => named_reference(name.as_str()),
        FieldType::List(inner) => list_reference(convert_field_type(inner)),
        FieldType::NonNull(inner) => non_null_reference(convert_field_type(inner)),
    }
}

} // verus!
