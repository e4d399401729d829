use vstd::prelude::*;
use schemars::gen::SchemaGenerator;
use schemars::schema::SchemaObject;
use crate::extractor::{
    is_cappable, plan_of, plan_result_view, structured_plan, Extractor, Payload, Plan,
    SchemaError,
};
use crate::body::RequestBody;
use crate::schema::{byte_schema, text_schema};
use crate::mime::{get_mime_type, opt_view, DEFAULT_MIME_TYPE, JSON_MIME_TYPE, MSGPACK_MIME_TYPE};

verus! {

impl Extractor {
    /// Whether the extractor is a leaf that has a size-limited variant.
    pub fn cappable(&self) -> (r: bool)
        ensures
            r == is_cappable(*self),
    {
        match self {
            Extractor::Text | Extractor::Str | Extractor::CowStr | Extractor::ByteVec
            | Extractor::ByteSlice | Extractor::RawStr | Extractor::TempFile => true,
            _ => false,
        }
    }
}

impl Plan {
    /// The patch of the optional-value wrapper: the same plan, not required.
    pub fn optional(self) -> (r: Plan)
        ensures
            r.mime == self.mime,
            r.payload == self.payload,
            !r.required,
    {
        Plan { required: false, ..self }
    }
}

/// A required leaf with the given media type and payload shape.
fn leaf(mime: &str, payload: Payload) -> (r: Result<Plan, SchemaError>)
    ensures
        r matches Ok(p) && p.mime@ == mime@ && p.payload == payload && p.required,
{
    Ok(Plan { mime: mime.to_owned(), payload, required: true })
}

/// A structured leaf under `mime`, or the generator's failure passed on.
fn structured(schema: Result<SchemaObject, String>, mime: &str) -> (r: Result<Plan, SchemaError>)
    ensures
        plan_result_view(r) == structured_plan(schema, mime@),
{
    match schema {
        Ok(s) => leaf(mime, Payload::Structured(s)),
        Err(m) => Err(SchemaError::SchemaGenerationFailed(m)),
    }
}

/// Decides media type, payload shape and required-ness for `ext`, walking
/// its wrappers down to the leaf that owns the payload.
pub fn resolve_plan(ext: Extractor, mime_type: Option<&str>) -> (r: Result<Plan, SchemaError>)
    ensures
        plan_result_view(r) == plan_of(ext, opt_view(mime_type)),
    decreases ext,
{
    match ext {
        Extractor::Text | Extractor::Str | Extractor::CowStr => leaf(
            get_mime_type(mime_type, DEFAULT_MIME_TYPE),
            Payload::Text,
        ),
        Extractor::ByteVec | Extractor::ByteSlice | Extractor::RawStr | Extractor::Data
        | Extractor::TempFile => leaf(get_mime_type(mime_type, DEFAULT_MIME_TYPE), Payload::Bytes),
        Extractor::Capped(inner) => {
            if inner.cappable() {
                resolve_plan(*inner, mime_type)
            } else {
                Err(SchemaError::Unresolvable)
            }
        },
        Extractor::Optional(inner) => match resolve_plan(*inner, mime_type) {
            Ok(p) => Ok(p.optional()),
            Err(x) => Err(x),
        },
        Extractor::Fallible(inner) => resolve_plan(*inner, mime_type),
        Extractor::Form(s) => structured(s, get_mime_type(mime_type, DEFAULT_MIME_TYPE)),
        Extractor::Json(s) => structured(s, JSON_MIME_TYPE),
        Extractor::MsgPack(s) => structured(s, MSGPACK_MIME_TYPE),
        Extractor::Unregistered => Err(SchemaError::Unresolvable),
    }
}

/// Describes the request body that `ext` reads. A textual or binary payload
/// gets its schema from `gen`; a structured payload keeps the schema that
/// `ext` carries. Failures of the dispatch or of the schema generator are
/// passed on unchanged.
pub fn request_body(gen: &mut SchemaGenerator, ext: Extractor, mime_type: Option<&str>) -> (r:
    Result<RequestBody, SchemaError>)
    ensures
        match plan_of(ext, opt_view(mime_type)) {
            Ok(p) => r matches Ok(b) && b.describes(p) && b.wf(),
            Err(e) => r == Err::<RequestBody, SchemaError>(e),
        },
{
    match resolve_plan(ext, mime_type) {
        Ok(p) => {
            let schema = match p.payload {
                Payload::Text => text_schema(gen),
                Payload::Bytes => byte_schema(gen),
                Payload::Structured(s) => s,
            };
            Ok(RequestBody::single(p.mime, schema, p.required))
        },
        Err(e) => Err(e),
    }
}

} // verus!
