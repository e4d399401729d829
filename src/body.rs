use vstd::prelude::*;
use schemars::schema::SchemaObject;
use crate::extractor::{Payload, PlanView};
use crate::schema::schema_of_type;

verus! {

/// The schema bound to one media type of a request body.
#[derive(Debug, PartialEq)]
pub struct MediaType {
    pub schema: Option<SchemaObject>,
}

/// A request-body description: media type to schema, whether a body must be
/// sent, and an optional description.
#[derive(Debug, PartialEq)]
pub struct RequestBody {
    pub content: Vec<(String, MediaType)>,
    pub required: bool,
    pub description: Option<String>,
}

/// The schema of a payload: that of a string, of a byte blob, or the one that
/// a structured payload carries.
pub open spec fn payload_schema(p: Payload) -> SchemaObject {
    match p {
        Payload::Text => schema_of_type("String"@),
        Payload::Bytes => schema_of_type("Vec<u8>"@),
        Payload::Structured(s) => s,
    }
}

impl RequestBody {
    /// The media types of `content`, in order.
    pub open spec fn mime_types(&self) -> Seq<Seq<char>> {
        self.content@.map_values(|e: (String, MediaType)| e.0@)
    }

    /// Well-formed: `content` names each media type once and is not empty.
    pub open spec fn wf(&self) -> bool {
        &&& self.content@.len() > 0
        &&& self.mime_types().no_duplicates()
    }

    /// Holds exactly one entry, `mime` to `schema`, with no description.
    pub open spec fn is_single(&self, mime: Seq<char>, schema: SchemaObject, required: bool) -> bool {
        &&& self.content@.len() == 1
        &&& self.content@[0].0@ == mime
        &&& self.content@[0].1.schema == Some(schema)
        &&& self.required == required
        &&& self.description is None
    }

    /// Describes the plan `p`: its media type to the schema of its payload,
    /// with its required-ness.
    pub open spec fn describes(&self, p: PlanView) -> bool {
        self.is_single(p.mime, payload_schema(p.payload), p.required)
    }

    /// A description with the single entry `mime` to `schema`.
    pub fn single(mime: String, schema: SchemaObject, required: bool) -> (r: RequestBody)
        ensures
            r.is_single(mime@, schema, required),
            r.wf(),
    {
        let mut content: Vec<(String, MediaType)> = Vec::new();
        content.push((mime, MediaType { schema: Some(schema) }));
        let r = RequestBody { content, required, description: None };
        assert(r.mime_types() =~= seq![mime@]);
        r
    }
}

} // verus!
