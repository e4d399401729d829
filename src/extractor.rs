use vstd::prelude::*;
use schemars::schema::SchemaObject;
use crate::mime::{mime_or, DEFAULT_MIME_TYPE, JSON_MIME_TYPE, MSGPACK_MIME_TYPE};

verus! {

/// The kind of an extractor that reads a request body. Leaves own their media
/// type and required-ness; wrappers delegate to exactly one inner extractor.
#[derive(Debug, PartialEq)]
pub enum Extractor {
    /// An owned string.
    Text,
    /// A borrowed string slice.
    Str,
    /// A copy-on-write string.
    CowStr,
    /// An owned byte vector.
    ByteVec,
    /// A borrowed byte slice.
    ByteSlice,
    /// A raw, undecoded string; declared as bytes.
    RawStr,
    /// The raw, unparsed body stream.
    Data,
    /// A body streamed into a temporary file.
    TempFile,
    /// A size-limited variant of the inner extractor.
    Capped(Box<Extractor>),
    /// A body that may be absent.
    Optional(Box<Extractor>),
    /// The outcome of the inner extractor, success or failure.
    Fallible(Box<Extractor>),
    /// Form data of a structured type, with that type's schema as generated.
    /// It takes the caller's media type, else the default one: no form media
    /// type is assumed on the caller's behalf.
    Form(Result<SchemaObject, String>),
    /// JSON of a structured type, with that type's schema as generated.
    Json(Result<SchemaObject, String>),
    /// MessagePack of a structured type, with that type's schema as generated.
    MsgPack(Result<SchemaObject, String>),
    /// An extractor for which no rule is registered.
    Unregistered,
}

/// Why a request body could not be described.
#[derive(Debug, Clone, PartialEq, Eq)]
pub enum SchemaError {
    /// No rule exists for the extractor.
    Unresolvable,
    /// The schema generator could not produce the payload's schema.
    SchemaGenerationFailed(String),
}

/// The shape of a payload, that is which schema describes it.
#[derive(Debug, PartialEq)]
pub enum Payload {
    /// An unstructured string.
    Text,
    /// A byte blob.
    Bytes,
    /// A structured type, with its generated schema.
    Structured(SchemaObject),
}

/// What resolution decides: media type, payload shape and required-ness.
#[derive(Debug, PartialEq)]
pub struct Plan {
    pub mime: String,
    pub payload: Payload,
    pub required: bool,
}

/// The mathematical model of a `Plan`.
pub struct PlanView {
    pub mime: Seq<char>,
    pub payload: Payload,
    pub required: bool,
}

impl View for Plan {
    type V = PlanView;

    open spec fn view(&self) -> PlanView {
        PlanView { mime: self.mime@, payload: self.payload, required: self.required }
    }
}

/// The model of a resolution outcome.
pub open spec fn plan_result_view(r: Result<Plan, SchemaError>) -> Result<PlanView, SchemaError> {
    match r {
        Ok(p) => Ok(p@),
        Err(e) => Err(e),
    }
}

/// Leaves whose payload is an unstructured string.
pub open spec fn is_text_leaf(e: Extractor) -> bool {
    e is Text || e is Str || e is CowStr
}

/// Leaves whose payload is a byte blob.
pub open spec fn is_byte_leaf(e: Extractor) -> bool {
    e is ByteVec || e is ByteSlice || e is RawStr || e is Data || e is TempFile
}

/// Leaves that have a size-limited variant.
pub open spec fn is_cappable(e: Extractor) -> bool {
    is_text_leaf(e) || (is_byte_leaf(e) && !(e is Data))
}

/// A successful plan of a leaf: required, with the given media type and shape.
pub open spec fn leaf_plan(mime: Seq<char>, payload: Payload) -> Result<PlanView, SchemaError> {
    Ok(PlanView { mime, payload, required: true })
}

/// A leaf of a structured type under `mime`, or the generator's failure.
pub open spec fn structured_plan(schema: Result<SchemaObject, String>, mime: Seq<char>) -> Result<
    PlanView,
    SchemaError,
> {
    match schema {
        Ok(s) => leaf_plan(mime, Payload::Structured(s)),
        Err(m) => Err(SchemaError::SchemaGenerationFailed(m)),
    }
}

/// The dispatch table: what resolving `e` decides when the caller asks for
/// media type `o`.
pub open spec fn plan_of(e: Extractor, o: Option<Seq<char>>) -> Result<PlanView, SchemaError>
    decreases e,
{
    match e {
        Extractor::Text | Extractor::Str | Extractor::CowStr => leaf_plan(
            mime_or(o, DEFAULT_MIME_TYPE@),
            Payload::Text,
        ),
        Extractor::ByteVec | Extractor::ByteSlice | Extractor::RawStr | Extractor::Data
        | Extractor::TempFile => leaf_plan(mime_or(o, DEFAULT_MIME_TYPE@), Payload::Bytes),
        Extractor::Capped(inner) => if is_cappable(*inner) {
            plan_of(*inner, o)
        } else {
            Err(SchemaError::Unresolvable)
        },
        Extractor::Optional(inner) => match plan_of(*inner, o) {
            Ok(p) => Ok(PlanView { required: false, ..p }),
            Err(x) => Err(x),
        },
        Extractor::Fallible(inner) => plan_of(*inner, o),
        Extractor::Form(s) => structured_plan(s, mime_or(o, DEFAULT_MIME_TYPE@)),
        Extractor::Json(s) => structured_plan(s, JSON_MIME_TYPE@),
        Extractor::MsgPack(s) => structured_plan(s, MSGPACK_MIME_TYPE@),
        Extractor::Unregistered => Err(SchemaError::Unresolvable),
    }
}

} // verus!
