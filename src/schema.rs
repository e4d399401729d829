use vstd::prelude::*;
use schemars::gen::SchemaGenerator;
use schemars::schema::SchemaObject;

verus! {

/// The schema generator of a document build: it owns the named schema
/// definitions and hands out schemas for payload types.
#[verifier::external_type_specification]
#[verifier::external_body]
pub struct ExSchemaGenerator(SchemaGenerator);

/// A JSON schema, as the generator produced it. Opaque here: the resolver only
/// carries it from the generator into the request body.
#[verifier::external_type_specification]
#[verifier::external_body]
pub struct ExSchemaObject(SchemaObject);

/// The schema that the generator returns for the Rust type named `rust_type`,
/// where that type is never stored as a named definition (`String`,
/// `Vec<u8>`): the schema is then built afresh from the type alone, whatever
/// the generator holds.
pub uninterp spec fn schema_of_type(rust_type: Seq<char>) -> SchemaObject;

/// Relies on schemars' `SchemaGenerator::subschema_for::<String>` and
/// `Schema::into_object`: the schema of an unstructured string, which schemars
/// always inlines.
#[verifier::external_body]
pub(crate) fn text_schema(gen: &mut SchemaGenerator) -> (r: SchemaObject)
    ensures
        r == schema_of_type("String"@),
{
    gen.subschema_for::<String>().into_object()
}

/// Relies on schemars' `SchemaGenerator::subschema_for::<Vec<u8>>` and
/// `Schema::into_object`: the schema of a byte blob, which schemars always
/// inlines.
#[verifier::external_body]
pub(crate) fn byte_schema(gen: &mut SchemaGenerator) -> (r: SchemaObject)
    ensures
        r == schema_of_type("Vec<u8>"@),
{
    gen.subschema_for::<Vec<u8>>().into_object()
}

} // verus!
